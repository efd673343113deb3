//! Updates: the commands by which an item of a shown menu is changed.
//!
//! An update is sent to the numeric identifier of one item and says nothing of the
//! place of the item in its menu. It sets one property of the item and leaves the
//! others as they are. The platform holds the shown item; what an update does to it
//! is said here on a [`CustomMenuItem`], which stands for its state.

use crate::id::{resolved, MenuId};
use crate::item::CustomMenuItem;
use crate::native::NativeImage;
use vstd::prelude::*;

verus! {

/// A change to one property of a shown menu item.
#[derive(Debug)]
pub enum MenuUpdate {
    /// Modifies the enabled state of the menu item.
    SetEnabled(bool),
    /// Modifies the title (label) of the menu item.
    SetTitle(String),
    /// Modifies the selected state of the menu item.
    SetSelected(bool),
    /// Gives the menu item another image of the system. It shows on macOS only.
    SetNativeImage(NativeImage),
}

impl Clone for MenuUpdate {
    fn clone(&self) -> (copy: Self)
        ensures
            copy == *self,
    {
        match self {
            MenuUpdate::SetEnabled(enabled) => MenuUpdate::SetEnabled(*enabled),
            MenuUpdate::SetTitle(title) => MenuUpdate::SetTitle(title.clone()),
            MenuUpdate::SetSelected(selected) => MenuUpdate::SetSelected(*selected),
            MenuUpdate::SetNativeImage(image) => MenuUpdate::SetNativeImage(*image),
        }
    }
}

impl MenuUpdate {
    /// The state of `item` after the update: the property that the update names
    /// holds the value that the update carries, and nothing else has changed.
    pub open spec fn applied<I: MenuId>(self, item: CustomMenuItem<I>) -> CustomMenuItem<I> {
        match self {
            MenuUpdate::SetEnabled(enabled) => CustomMenuItem { enabled, ..item },
            MenuUpdate::SetTitle(title) => CustomMenuItem { title, ..item },
            MenuUpdate::SetSelected(selected) => CustomMenuItem { selected, ..item },
            MenuUpdate::SetNativeImage(image) => CustomMenuItem {
                native_image: Some(image),
                ..item
            },
        }
    }

    /// Applies the update to the state of an item.
    pub fn apply<I: MenuId>(self, item: CustomMenuItem<I>) -> (updated: CustomMenuItem<I>)
        ensures
            updated == self.applied(item),
    {
        let mut updated = item;
        match self {
            MenuUpdate::SetEnabled(enabled) => {
                updated.enabled = enabled;
            },
            MenuUpdate::SetTitle(title) => {
                updated.title = title;
            },
            MenuUpdate::SetSelected(selected) => {
                updated.selected = selected;
            },
            MenuUpdate::SetNativeImage(image) => {
                updated.native_image = Some(image);
            },
        }
        updated
    }
}

/// An update that is applied twice leaves what it leaves when applied once.
pub proof fn lemma_update_idempotent<I: MenuId>(update: MenuUpdate, item: CustomMenuItem<I>)
    ensures
        update.applied(update.applied(item)) == update.applied(item),
{
}

/// An update leaves the identifier of an item as it is, so the item is found
/// under the same number after it.
pub proof fn lemma_update_keeps_address<I: MenuId>(update: MenuUpdate, item: CustomMenuItem<I>)
    ensures
        update.applied(item).id == item.id,
        resolved(update.applied(item).id) == resolved(item.id),
{
}

} // verus!
