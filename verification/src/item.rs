//! Custom menu items: the leaves of a menu that the application defines.

use crate::id::{lemma_same_resolved, resolve, resolved, MenuId};
use crate::native::NativeImage;
use crate::title::converts_to;
use vstd::prelude::*;

verus! {

/// A custom menu item.
///
/// Once the menu is shown, the item is addressed by the number that its identifier
/// resolves to, not by this value. A value of this type then stands for the state
/// of the shown item, which updates change.
#[derive(Debug)]
#[non_exhaustive]
pub struct CustomMenuItem<I: MenuId> {
    /// The identifier that the application gave the item.
    pub id: I,
    /// The label.
    pub title: String,
    /// The keyboard shortcut, as text.
    pub keyboard_accelerator: Option<String>,
    /// Whether the item can be chosen.
    pub enabled: bool,
    /// Whether the item shows as selected.
    pub selected: bool,
    /// The image that the system supplies for the item. It shows on macOS only.
    pub native_image: Option<NativeImage>,
}

impl<I: MenuId> CustomMenuItem<I> {
    /// Creates a custom menu item under the given identifier and title: enabled,
    /// not selected, without accelerator and without image.
    pub fn new<S: Into<String>>(id: I, title: S) -> (item: Self)
        ensures
            item.id == id,
            converts_to(title, item.title),
            item.keyboard_accelerator is None,
            item.enabled,
            !item.selected,
            item.native_image is None,
    {
        Self {
            id,
            title: title.into(),
            keyboard_accelerator: None,
            enabled: true,
            selected: false,
            native_image: None,
        }
    }

    /// Gives the item an image of the system, in place of the one it had. Nothing
    /// but `native_image` changes.
    pub fn native_image(self, image: NativeImage) -> (item: Self)
        ensures
            item == (CustomMenuItem { native_image: Some(image), ..self }),
    {
        let mut item = self;
        item.native_image = Some(image);
        item
    }

    /// Marks the item as disabled. Nothing but `enabled` changes.
    pub fn disabled(self) -> (item: Self)
        ensures
            item == (CustomMenuItem { enabled: false, ..self }),
            item.id == self.id,
            item.title == self.title,
            item.selected == self.selected,
    {
        let mut item = self;
        item.enabled = false;
        item
    }

    /// Marks the item as selected. Nothing but `selected` changes.
    pub fn selected(self) -> (item: Self)
        ensures
            item == (CustomMenuItem { selected: true, ..self }),
            item.id == self.id,
            item.title == self.title,
            item.enabled == self.enabled,
    {
        let mut item = self;
        item.selected = true;
        item
    }

    /// Whether `copy` is a copy of the item: its identifier equals that of the
    /// item, and every other field holds what the item holds.
    pub open spec fn copied(self, copy: Self) -> bool {
        self.id.same(&copy.id) && copy == (CustomMenuItem { id: copy.id, ..self })
    }

    /// The numeric identifier of the item: what its identifier resolves to.
    pub fn id_value(&self) -> (numeric: u32)
        ensures
            numeric == resolved(self.id),
    {
        resolve(&self.id)
    }
}

impl<I: MenuId> Clone for CustomMenuItem<I> {
    fn clone(&self) -> (copy: Self)
        ensures
            self.copied(copy),
    {
        CustomMenuItem {
            id: self.id.duplicate(),
            title: self.title.clone(),
            keyboard_accelerator: match &self.keyboard_accelerator {
                Some(keys) => Some(keys.clone()),
                None => None,
            },
            enabled: self.enabled,
            selected: self.selected,
            native_image: self.native_image,
        }
    }
}

/// A copy of an item has the numeric identifier of the item.
pub proof fn lemma_copy_resolved<I: MenuId>(item: CustomMenuItem<I>, copy: CustomMenuItem<I>)
    requires
        item.copied(copy),
    ensures
        resolved(copy.id) == resolved(item.id),
{
    lemma_same_resolved(item.id, copy.id);
}

} // verus!
