//! Window menus: ordered trees of custom items, native items and submenus.

use crate::id::MenuId;
use crate::item::CustomMenuItem;
use crate::native::MenuItem;
use crate::title::converts_to;
use vstd::prelude::*;

verus! {

/// An entry of a window menu.
#[derive(Debug)]
pub enum MenuEntry<I: MenuId> {
    /// A custom item.
    CustomItem(CustomMenuItem<I>),
    /// A native item.
    NativeItem(MenuItem),
    /// An entry with a submenu.
    Submenu(Submenu<I>),
}

/// A window menu: its entries in the order in which they show.
#[derive(Debug)]
#[non_exhaustive]
pub struct Menu<I: MenuId> {
    /// The entries, first to last.
    pub items: Vec<MenuEntry<I>>,
}

/// A menu under a title, as an entry of another menu. It owns its inner menu.
#[derive(Debug)]
#[non_exhaustive]
pub struct Submenu<I: MenuId> {
    /// The label under which the menu opens.
    pub title: String,
    /// Whether the submenu can be opened.
    pub enabled: bool,
    /// The menu that opens.
    pub inner: Menu<I>,
}

impl<I: MenuId> MenuEntry<I> {
    /// Whether `copy` is a copy of the entry: an entry of the same kind that
    /// holds a copy of what the entry holds.
    pub open spec fn copied(self, copy: Self) -> bool
        decreases self,
    {
        match (self, copy) {
            (MenuEntry::CustomItem(item), MenuEntry::CustomItem(other)) => item.copied(other),
            (MenuEntry::NativeItem(item), MenuEntry::NativeItem(other)) => other == item,
            (MenuEntry::Submenu(submenu), MenuEntry::Submenu(other)) => submenu.copied(other),
            _ => false,
        }
    }
}

impl<I: MenuId> Submenu<I> {
    /// Whether `copy` is a copy of the submenu: the same title and state over a
    /// copy of the inner menu.
    pub open spec fn copied(self, copy: Self) -> bool
        decreases self,
    {
        copy.title == self.title && copy.enabled == self.enabled && self.inner.copied(copy.inner)
    }

    /// Creates a submenu with the given title and menu items. It is enabled,
    /// whatever the menu holds.
    pub fn new<S: Into<String>>(title: S, menu: Menu<I>) -> (submenu: Self)
        ensures
            converts_to(title, submenu.title),
            submenu.enabled,
            submenu.inner == menu,
    {
        Self { title: title.into(), enabled: true, inner: menu }
    }
}

impl<I: MenuId> View for Menu<I> {
    type V = Seq<MenuEntry<I>>;

    /// The entries, first to last.
    open spec fn view(&self) -> Seq<MenuEntry<I>> {
        self.items@
    }
}

impl<I: MenuId> Default for Menu<I> {
    /// The empty menu.
    fn default() -> (menu: Self)
        ensures
            menu@ == Seq::<MenuEntry<I>>::empty(),
    {
        Self { items: Vec::new() }
    }
}

impl<I: MenuId> Menu<I> {
    /// Whether `copy` is a copy of the menu: as many entries, each a copy of the
    /// entry at its place.
    pub open spec fn copied(self, copy: Self) -> bool
        decreases self,
    {
        &&& copy.items@.len() == self.items@.len()
        &&& forall|i: int|
            0 <= i < self.items@.len() ==> (#[trigger] self.items@[i]).copied(copy.items@[i])
    }

    /// Creates a window menu without entries.
    pub fn new() -> (menu: Self)
        ensures
            menu@ == Seq::<MenuEntry<I>>::empty(),
    {
        Self { items: Vec::new() }
    }

    /// Adds the custom menu item to the end of the menu.
    pub fn add_item(self, item: CustomMenuItem<I>) -> (menu: Self)
        ensures
            menu@ == self@.push(MenuEntry::CustomItem(item)),
            menu@.len() == self@.len() + 1,
            forall|i: int| 0 <= i < self@.len() ==> menu@[i] == self@[i],
            menu@[self@.len() as int] == MenuEntry::CustomItem(item),
    {
        let mut menu = self;
        menu.items.push(MenuEntry::CustomItem(item));
        menu
    }

    /// Adds a native item to the end of the menu. Every native item is taken,
    /// whatever the platform supports.
    pub fn add_native_item(self, item: MenuItem) -> (menu: Self)
        ensures
            menu@ == self@.push(MenuEntry::NativeItem(item)),
            menu@.len() == self@.len() + 1,
            forall|i: int| 0 <= i < self@.len() ==> menu@[i] == self@[i],
            menu@[self@.len() as int] == MenuEntry::<I>::NativeItem(item),
    {
        let mut menu = self;
        menu.items.push(MenuEntry::NativeItem(item));
        menu
    }

    /// Adds an entry with a submenu to the end of the menu.
    pub fn add_submenu(self, submenu: Submenu<I>) -> (menu: Self)
        ensures
            menu@ == self@.push(MenuEntry::Submenu(submenu)),
            menu@.len() == self@.len() + 1,
            forall|i: int| 0 <= i < self@.len() ==> menu@[i] == self@[i],
            menu@[self@.len() as int] == MenuEntry::Submenu(submenu),
    {
        let mut menu = self;
        menu.items.push(MenuEntry::Submenu(submenu));
        menu
    }
}

impl<I: MenuId> Clone for MenuEntry<I> {
    fn clone(&self) -> (copy: Self)
        ensures
            self.copied(copy),
        decreases self,
    {
        match self {
            MenuEntry::CustomItem(item) => MenuEntry::CustomItem(item.clone()),
            MenuEntry::NativeItem(item) => MenuEntry::NativeItem(item.clone()),
            MenuEntry::Submenu(submenu) => MenuEntry::Submenu(submenu.clone()),
        }
    }
}

impl<I: MenuId> Clone for Submenu<I> {
    fn clone(&self) -> (copy: Self)
        ensures
            self.copied(copy),
        decreases self,
    {
        Submenu { title: self.title.clone(), enabled: self.enabled, inner: self.inner.clone() }
    }
}

impl<I: MenuId> Clone for Menu<I> {
    fn clone(&self) -> (copy: Self)
        ensures
            self.copied(copy),
        decreases self,
    {
        let mut items: Vec<MenuEntry<I>> = Vec::new();
        let mut i: usize = 0;
        while i < self.items.len()
            invariant
                i <= self.items.len(),
                items@.len() == i,
                forall|k: int| 0 <= k < i ==> (#[trigger] self.items@[k]).copied(items@[k]),
            decreases self.items.len() - i,
        {
            items.push(self.items[i].clone());
            i += 1;
        }
        Menu { items }
    }
}

} // verus!
