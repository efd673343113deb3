//! A platform-independent model of window menus and system-tray menus.
//!
//! A menu is a tree that is built before any native window exists. Each custom item
//! carries an identifier chosen by the application; the identifier resolves to a
//! 32-bit number, which is the address of the item once the menu is shown. A shown
//! item is changed by a [`MenuUpdate`] sent to that number.
//!
//! - [`id`]: what an identifier must offer, and how it resolves to its number.
//! - [`native`]: the items and images that a platform supplies, and where.
//! - [`item`]: custom items.
//! - [`menu`]: window menus.
//! - [`tray`]: system-tray menus and the handle of a shown tray.
//! - [`update`]: the updates of a shown item.
//! - [`title`]: the conversions that give a title its text.

pub mod id;
pub mod item;
pub mod menu;
pub mod native;
pub mod title;
pub mod tray;
pub mod update;

pub use id::{resolve, MenuId};
pub use item::CustomMenuItem;
pub use menu::{Menu, MenuEntry, Submenu};
pub use native::{MenuItem, NativeImage, Platform, SystemTrayMenuItem};
pub use tray::{SystemTrayMenu, SystemTrayMenuEntry, SystemTraySubmenu, TrayHandle};
pub use update::MenuUpdate;
