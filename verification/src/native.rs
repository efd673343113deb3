//! The native catalog: the menu actions and the images that a platform supplies,
//! and the platforms on which each of them exists.

use vstd::prelude::*;

verus! {

/// A family of target platforms.
#[derive(Debug, Clone, Copy, PartialEq, Eq, Structural)]
pub enum Platform {
    MacOs,
    Linux,
    Windows,
    Android,
    Ios,
}

/// Named images defined by the system. They exist on macOS only.
#[derive(Debug, Clone, Copy, PartialEq, Eq, Structural)]
pub enum NativeImage {
    /// An add item template image.
    Add,
    /// Advanced preferences toolbar icon for the preferences window.
    Advanced,
    /// A Bluetooth template image.
    Bluetooth,
    /// Bookmarks image suitable for a template.
    Bookmarks,
    /// A caution image.
    Caution,
    /// A color panel toolbar icon.
    ColorPanel,
    /// A column view mode template image.
    ColumnView,
    /// A computer icon.
    Computer,
    /// An enter full-screen mode template image.
    EnterFullScreen,
    /// Permissions for all users.
    Everyone,
    /// An exit full-screen mode template image.
    ExitFullScreen,
    /// A cover flow view mode template image.
    FlowView,
    /// A folder image.
    Folder,
    /// A burnable folder icon.
    FolderBurnable,
    /// A smart folder icon.
    FolderSmart,
    /// A link template image.
    FollowLinkFreestanding,
    /// A font panel toolbar icon.
    FontPanel,
    /// A `go back` template image.
    GoLeft,
    /// A `go forward` template image.
    GoRight,
    /// Home image suitable for a template.
    Home,
    /// An iChat Theater template image.
    IChatTheater,
    /// An icon view mode template image.
    IconView,
    /// An information toolbar icon.
    Info,
    /// A template image used to denote invalid data.
    InvalidDataFreestanding,
    /// A generic left-facing triangle template image.
    LeftFacingTriangle,
    /// A list view mode template image.
    ListView,
    /// A locked padlock template image.
    LockLocked,
    /// An unlocked padlock template image.
    LockUnlocked,
    /// A horizontal dash, for use in menus.
    MenuMixedState,
    /// A check mark template image, for use in menus.
    MenuOnState,
    /// A MobileMe icon.
    MobileMe,
    /// A drag image for multiple items.
    MultipleDocuments,
    /// A network icon.
    Network,
    /// A path button template image.
    Path,
    /// General preferences toolbar icon for the preferences window.
    PreferencesGeneral,
    /// A Quick Look template image.
    QuickLook,
    /// A refresh template image.
    RefreshFreestanding,
    /// A refresh template image.
    Refresh,
    /// A remove item template image.
    Remove,
    /// A reveal contents template image.
    RevealFreestanding,
    /// A generic right-facing triangle template image.
    RightFacingTriangle,
    /// A share view template image.
    Share,
    /// A slideshow template image.
    Slideshow,
    /// A badge for a `smart` item.
    SmartBadge,
    /// Small green indicator, similar to the available image of iChat.
    StatusAvailable,
    /// Small clear indicator.
    StatusNone,
    /// Small yellow indicator, similar to the idle image of iChat.
    StatusPartiallyAvailable,
    /// Small red indicator, similar to the unavailable image of iChat.
    StatusUnavailable,
    /// A stop progress template image.
    StopProgressFreestanding,
    /// A stop progress button template image.
    StopProgress,
    /// An image of the empty trash can.
    TrashEmpty,
    /// An image of the full trash can.
    TrashFull,
    /// Permissions for a single user.
    User,
    /// User account toolbar icon for the preferences window.
    UserAccounts,
    /// Permissions for a group of users.
    UserGroup,
    /// Permissions for guests.
    UserGuest,
}

impl NativeImage {
    /// Whether `platform` supplies the image: every image on macOS, none elsewhere.
    pub open spec fn has_native(self, platform: Platform) -> bool {
        platform == Platform::MacOs
    }

    /// Tells whether `platform` supplies the image. An image set on a platform
    /// that does not supply it is accepted and has no effect there.
    pub fn supported_on(&self, platform: Platform) -> (supported: bool)
        ensures
            supported == self.has_native(platform),
    {
        platform == Platform::MacOs
    }
}

/// A menu item bound to an action that the platform defines.
///
/// Every variant is accepted in a menu on every platform. Where the platform has
/// no counterpart for it, showing the menu leaves the item out.
#[derive(Debug)]
#[non_exhaustive]
pub enum MenuItem {
    /// Shows a standard "About" item. macOS and Linux.
    About(String),
    /// A standard "hide the app" menu item. macOS and Linux.
    Hide,
    /// A standard "Services" menu item. macOS.
    Services,
    /// A "hide all other windows" menu item. macOS.
    HideOthers,
    /// A menu item to show all the windows for this app. macOS.
    ShowAll,
    /// Close the current window. macOS and Linux.
    CloseWindow,
    /// A "quit this app" menu item. macOS and Linux.
    Quit,
    /// A menu item for enabling copying (often text) from responders. macOS and Linux.
    Copy,
    /// A menu item for enabling cutting (often text) from responders. macOS and Linux.
    Cut,
    /// An "undo" menu item; particularly useful for supporting the
    /// cut/copy/paste/undo lifecycle of events. macOS.
    Undo,
    /// A "redo" menu item; particularly useful for supporting the
    /// cut/copy/paste/undo lifecycle of events. macOS.
    Redo,
    /// A menu item for selecting all (often text) from responders. macOS and Linux.
    SelectAll,
    /// A menu item for pasting (often text) into responders. macOS and Linux.
    Paste,
    /// A standard "enter full screen" item. macOS.
    EnterFullScreen,
    /// An item for minimizing the window with the standard system controls.
    /// macOS and Linux.
    Minimize,
    /// An item for instructing the app to zoom. macOS.
    Zoom,
    /// Represents a separator. macOS and Linux.
    Separator,
}

impl MenuItem {
    /// Whether the action exists on macOS alone.
    pub open spec fn mac_only(self) -> bool {
        self is Services || self is HideOthers || self is ShowAll || self is Undo || self is Redo
            || self is EnterFullScreen || self is Zoom
    }

    /// Whether `platform` has a native counterpart for the action: macOS for every
    /// action, Linux for those that are not bound to macOS, no other platform for any.
    pub open spec fn has_native(self, platform: Platform) -> bool {
        match platform {
            Platform::MacOs => true,
            Platform::Linux => !self.mac_only(),
            Platform::Windows | Platform::Android | Platform::Ios => false,
        }
    }

    /// Tells whether `platform` has a native counterpart for the action. An item
    /// without one is accepted in a menu and shows nothing there.
    pub fn supported_on(&self, platform: Platform) -> (supported: bool)
        ensures
            supported == self.has_native(platform),
    {
        match platform {
            Platform::MacOs => true,
            Platform::Linux => match self {
                MenuItem::Services
                | MenuItem::HideOthers
                | MenuItem::ShowAll
                | MenuItem::Undo
                | MenuItem::Redo
                | MenuItem::EnterFullScreen
                | MenuItem::Zoom => false,
                _ => true,
            },
            _ => false,
        }
    }
}

impl Clone for MenuItem {
    fn clone(&self) -> (copy: Self)
        ensures
            copy == *self,
    {
        match self {
            MenuItem::About(name) => MenuItem::About(name.clone()),
            MenuItem::Hide => MenuItem::Hide,
            MenuItem::Services => MenuItem::Services,
            MenuItem::HideOthers => MenuItem::HideOthers,
            MenuItem::ShowAll => MenuItem::ShowAll,
            MenuItem::CloseWindow => MenuItem::CloseWindow,
            MenuItem::Quit => MenuItem::Quit,
            MenuItem::Copy => MenuItem::Copy,
            MenuItem::Cut => MenuItem::Cut,
            MenuItem::Undo => MenuItem::Undo,
            MenuItem::Redo => MenuItem::Redo,
            MenuItem::SelectAll => MenuItem::SelectAll,
            MenuItem::Paste => MenuItem::Paste,
            MenuItem::EnterFullScreen => MenuItem::EnterFullScreen,
            MenuItem::Minimize => MenuItem::Minimize,
            MenuItem::Zoom => MenuItem::Zoom,
            MenuItem::Separator => MenuItem::Separator,
        }
    }
}

/// A native item of a system-tray menu. A tray menu has separators and no other
/// native item: the actions of a window menu are no values of this type.
#[derive(Debug, Clone, Copy, PartialEq, Eq, Structural)]
#[non_exhaustive]
pub enum SystemTrayMenuItem {
    /// A separator.
    Separator,
}

} // verus!
