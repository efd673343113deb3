use menu_model::{CustomMenuItem, NativeImage};

#[test]
fn new_item_is_enabled_and_plain() {
    let item = CustomMenuItem::new(5u16, "Open");
    assert_eq!(item.id, 5);
    assert_eq!(item.title, "Open");
    assert!(item.keyboard_accelerator.is_none());
    assert!(item.enabled);
    assert!(!item.selected);
    assert!(item.native_image.is_none());
}

#[test]
fn new_item_takes_title_as_slice_or_string() {
    let from_slice = CustomMenuItem::new(1u8, "Close window");
    let from_string = CustomMenuItem::new(1u8, String::from("Close window"));
    assert_eq!(from_slice.title, "Close window");
    assert_eq!(from_string.title, "Close window");
    let empty = CustomMenuItem::new(1u8, "");
    assert_eq!(empty.title, "");
}

#[test]
fn disabled_changes_enabled_alone() {
    let item = CustomMenuItem::new(String::from("open"), "Open").disabled();
    assert!(!item.enabled);
    assert_eq!(item.id, "open");
    assert_eq!(item.title, "Open");
    assert!(item.keyboard_accelerator.is_none());
    assert!(!item.selected);
    assert!(item.native_image.is_none());
}

#[test]
fn selected_changes_selected_alone() {
    let item = CustomMenuItem::new(String::from("open"), "Open").selected();
    assert!(item.selected);
    assert_eq!(item.id, "open");
    assert_eq!(item.title, "Open");
    assert!(item.keyboard_accelerator.is_none());
    assert!(item.enabled);
    assert!(item.native_image.is_none());
}

#[test]
fn disabled_and_selected_stay_when_called_again() {
    let item = CustomMenuItem::new(3u32, "Open").disabled().disabled();
    assert!(!item.enabled);
    let item = item.selected().selected();
    assert!(item.selected);
    assert!(!item.enabled);
}

#[test]
fn builders_keep_the_accelerator() {
    let mut item = CustomMenuItem::new(3u32, "Open");
    item.keyboard_accelerator = Some(String::from("CmdOrCtrl+O"));
    let item = item.disabled().selected().native_image(NativeImage::Folder);
    assert_eq!(item.keyboard_accelerator.as_deref(), Some("CmdOrCtrl+O"));
    assert_eq!(item.title, "Open");
    assert_eq!(item.id, 3);
}

#[test]
fn native_image_sets_the_image_alone() {
    let item = CustomMenuItem::new(3u32, "Add").native_image(NativeImage::Add);
    assert_eq!(item.native_image, Some(NativeImage::Add));
    assert!(item.enabled);
    assert!(!item.selected);
    assert_eq!(item.title, "Add");
    assert_eq!(item.id, 3);
    assert!(item.keyboard_accelerator.is_none());
}

#[test]
fn native_image_replaces_an_earlier_image() {
    let item = CustomMenuItem::new(3u32, "Trash")
        .native_image(NativeImage::TrashEmpty)
        .native_image(NativeImage::TrashFull);
    assert_eq!(item.native_image, Some(NativeImage::TrashFull));
}

#[test]
fn clone_of_item_holds_the_same_values() {
    let mut item = CustomMenuItem::new(String::from("open"), "Open")
        .selected()
        .native_image(NativeImage::Folder);
    item.keyboard_accelerator = Some(String::from("F2"));
    let copy = item.clone();
    assert_eq!(copy.id, "open");
    assert_eq!(copy.title, "Open");
    assert_eq!(copy.keyboard_accelerator.as_deref(), Some("F2"));
    assert!(copy.enabled);
    assert!(copy.selected);
    assert_eq!(copy.native_image, Some(NativeImage::Folder));
    assert_eq!(copy.id_value(), item.id_value());
}

#[test]
fn clone_of_item_stands_on_its_own() {
    let item = CustomMenuItem::new(String::from("open"), "Open");
    let copy = item.clone().disabled();
    assert!(item.enabled);
    assert!(!copy.enabled);
}
