//! System-tray menus: trees like those of a window menu, whose only native item
//! is the separator, and the handle by which a shown tray is changed.

use crate::id::MenuId;
use crate::item::CustomMenuItem;
use crate::native::SystemTrayMenuItem;
use crate::title::converts_to;
use crate::update::MenuUpdate;
use vstd::prelude::*;

verus! {

/// What a shown system tray offers to the rest of the application.
///
/// A handle is used from any thread, whichever thread showed the tray: where the
/// platform wants its menus changed on one thread, the handle carries the call
/// over. Of two updates sent at once, the one that the platform sees last stands.
///
/// Either call may fail where the platform refuses it. The error is handed to the
/// caller as it is, and nothing is tried a second time. What becomes of an update
/// that is sent to a number that no shown item has is left to the platform.
pub trait TrayHandle: Send + Sync {
    /// The icon of a tray.
    type Icon;

    /// What the platform reports when it refuses a call.
    type Error;

    /// Replaces the icon of the tray.
    fn set_icon(&self, icon: Self::Icon) -> Result<(), Self::Error>;

    /// Sends `update` to the item of the tray menu whose numeric identifier is `id`.
    fn update_item(&self, id: u32, update: MenuUpdate) -> Result<(), Self::Error>;
}

/// An entry of a system-tray menu.
#[derive(Debug)]
pub enum SystemTrayMenuEntry<I: MenuId> {
    /// A custom item.
    CustomItem(CustomMenuItem<I>),
    /// A native item.
    NativeItem(SystemTrayMenuItem),
    /// An entry with a submenu.
    Submenu(SystemTraySubmenu<I>),
}

/// A system-tray menu: its entries in the order in which they show.
#[derive(Debug)]
#[non_exhaustive]
pub struct SystemTrayMenu<I: MenuId> {
    /// The entries, first to last.
    pub items: Vec<SystemTrayMenuEntry<I>>,
}

/// A tray menu under a title, as an entry of another tray menu. It owns its inner
/// menu.
#[derive(Debug)]
#[non_exhaustive]
pub struct SystemTraySubmenu<I: MenuId> {
    /// The label under which the menu opens.
    pub title: String,
    /// Whether the submenu can be opened.
    pub enabled: bool,
    /// The menu that opens.
    pub inner: SystemTrayMenu<I>,
}

impl<I: MenuId> SystemTrayMenuEntry<I> {
    /// Whether `copy` is a copy of the entry: an entry of the same kind that
    /// holds a copy of what the entry holds.
    pub open spec fn copied(self, copy: Self) -> bool
        decreases self,
    {
        match (self, copy) {
            (SystemTrayMenuEntry::CustomItem(item), SystemTrayMenuEntry::CustomItem(other)) =>
                item.copied(other),
            (SystemTrayMenuEntry::NativeItem(item), SystemTrayMenuEntry::NativeItem(other)) =>
                other == item,
            (SystemTrayMenuEntry::Submenu(submenu), SystemTrayMenuEntry::Submenu(other)) =>
                submenu.copied(other),
            _ => false,
        }
    }
}

impl<I: MenuId> SystemTraySubmenu<I> {
    /// Whether `copy` is a copy of the submenu: the same title and state over a
    /// copy of the inner menu.
    pub open spec fn copied(self, copy: Self) -> bool
        decreases self,
    {
        copy.title == self.title && copy.enabled == self.enabled && self.inner.copied(copy.inner)
    }

    /// Creates a submenu with the given title and menu items. It is enabled,
    /// whatever the menu holds.
    pub fn new<S: Into<String>>(title: S, menu: SystemTrayMenu<I>) -> (submenu: Self)
        ensures
            converts_to(title, submenu.title),
            submenu.enabled,
            submenu.inner == menu,
    {
        Self { title: title.into(), enabled: true, inner: menu }
    }
}

impl<I: MenuId> View for SystemTrayMenu<I> {
    type V = Seq<SystemTrayMenuEntry<I>>;

    /// The entries, first to last.
    open spec fn view(&self) -> Seq<SystemTrayMenuEntry<I>> {
        self.items@
    }
}

impl<I: MenuId> Default for SystemTrayMenu<I> {
    /// The empty menu.
    fn default() -> (menu: Self)
        ensures
            menu@ == Seq::<SystemTrayMenuEntry<I>>::empty(),
    {
        Self { items: Vec::new() }
    }
}

impl<I: MenuId> SystemTrayMenu<I> {
    /// Whether `copy` is a copy of the menu: as many entries, each a copy of the
    /// entry at its place.
    pub open spec fn copied(self, copy: Self) -> bool
        decreases self,
    {
        &&& copy.items@.len() == self.items@.len()
        &&& forall|i: int|
            0 <= i < self.items@.len() ==> (#[trigger] self.items@[i]).copied(copy.items@[i])
    }

    /// Creates a system-tray menu without entries.
    pub fn new() -> (menu: Self)
        ensures
            menu@ == Seq::<SystemTrayMenuEntry<I>>::empty(),
    {
        Self { items: Vec::new() }
    }

    /// Adds the custom menu item to the end of the menu.
    pub fn add_item(self, item: CustomMenuItem<I>) -> (menu: Self)
        ensures
            menu@ == self@.push(SystemTrayMenuEntry::CustomItem(item)),
            menu@.len() == self@.len() + 1,
            forall|i: int| 0 <= i < self@.len() ==> menu@[i] == self@[i],
            menu@[self@.len() as int] == SystemTrayMenuEntry::CustomItem(item),
    {
        let mut menu = self;
        menu.items.push(SystemTrayMenuEntry::CustomItem(item));
        menu
    }

    /// Adds a native item to the end of the menu.
    pub fn add_native_item(self, item: SystemTrayMenuItem) -> (menu: Self)
        ensures
            menu@ == self@.push(SystemTrayMenuEntry::NativeItem(item)),
            menu@.len() == self@.len() + 1,
            forall|i: int| 0 <= i < self@.len() ==> menu@[i] == self@[i],
            menu@[self@.len() as int] == SystemTrayMenuEntry::<I>::NativeItem(item),
    {
        let mut menu = self;
        menu.items.push(SystemTrayMenuEntry::NativeItem(item));
        menu
    }

    /// Adds an entry with a submenu to the end of the menu.
    pub fn add_submenu(self, submenu: SystemTraySubmenu<I>) -> (menu: Self)
        ensures
            menu@ == self@.push(SystemTrayMenuEntry::Submenu(submenu)),
            menu@.len() == self@.len() + 1,
            forall|i: int| 0 <= i < self@.len() ==> menu@[i] == self@[i],
            menu@[self@.len() as int] == SystemTrayMenuEntry::Submenu(submenu),
    {
        let mut menu = self;
        menu.items.push(SystemTrayMenuEntry::Submenu(submenu));
        menu
    }
}

impl<I: MenuId> Clone for SystemTrayMenuEntry<I> {
    fn clone(&self) -> (copy: Self)
        ensures
            self.copied(copy),
        decreases self,
    {
        match self {
            SystemTrayMenuEntry::CustomItem(item) => SystemTrayMenuEntry::CustomItem(item.clone()),
            SystemTrayMenuEntry::NativeItem(item) => SystemTrayMenuEntry::NativeItem(*item),
            SystemTrayMenuEntry::Submenu(submenu) => SystemTrayMenuEntry::Submenu(submenu.clone()),
        }
    }
}

impl<I: MenuId> Clone for SystemTraySubmenu<I> {
    fn clone(&self) -> (copy: Self)
        ensures
            self.copied(copy),
        decreases self,
    {
        SystemTraySubmenu {
            title: self.title.clone(),
            enabled: self.enabled,
            inner: self.inner.clone(),
        }
    }
}

impl<I: MenuId> Clone for SystemTrayMenu<I> {
    fn clone(&self) -> (copy: Self)
        ensures
            self.copied(copy),
        decreases self,
    {
        let mut items: Vec<SystemTrayMenuEntry<I>> = Vec::new();
        let mut i: usize = 0;
        while i < self.items.len()
            invariant
                i <= self.items.len(),
                items@.len() == i,
                forall|k: int| 0 <= k < i ==> (#[trigger] self.items@[k]).copied(items@[k]),
            decreases self.items.len() - i,
        {
            items.push(self.items[i].clone());
            i += 1;
        }
        SystemTrayMenu { items }
    }
}

} // verus!
