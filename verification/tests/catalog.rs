use menu_model::{MenuItem, NativeImage, Platform};

fn all_items() -> Vec<MenuItem> {
    vec![
        MenuItem::About(String::from("App")),
        MenuItem::Hide,
        MenuItem::Services,
        MenuItem::HideOthers,
        MenuItem::ShowAll,
        MenuItem::CloseWindow,
        MenuItem::Quit,
        MenuItem::Copy,
        MenuItem::Cut,
        MenuItem::Undo,
        MenuItem::Redo,
        MenuItem::SelectAll,
        MenuItem::Paste,
        MenuItem::EnterFullScreen,
        MenuItem::Minimize,
        MenuItem::Zoom,
        MenuItem::Separator,
    ]
}

#[test]
fn macos_has_every_native_item() {
    for item in all_items() {
        assert!(item.supported_on(Platform::MacOs));
    }
}

#[test]
fn linux_has_the_items_not_bound_to_macos() {
    let on_linux: Vec<bool> = all_items().iter().map(|item| item.supported_on(Platform::Linux)).collect();
    assert_eq!(
        on_linux,
        vec![
            true, true, false, false, false, true, true, true, true, false, false, true, true,
            false, true, false, true
        ]
    );
    assert!(MenuItem::About(String::new()).supported_on(Platform::Linux));
    assert!(MenuItem::Quit.supported_on(Platform::Linux));
    assert!(MenuItem::Separator.supported_on(Platform::Linux));
    assert!(!MenuItem::Services.supported_on(Platform::Linux));
    assert!(!MenuItem::Undo.supported_on(Platform::Linux));
    assert!(!MenuItem::Zoom.supported_on(Platform::Linux));
}

#[test]
fn other_platforms_have_no_native_item() {
    for item in all_items() {
        assert!(!item.supported_on(Platform::Windows));
        assert!(!item.supported_on(Platform::Android));
        assert!(!item.supported_on(Platform::Ios));
    }
}

#[test]
fn native_images_exist_on_macos_alone() {
    for image in [NativeImage::Add, NativeImage::Folder, NativeImage::UserGuest] {
        assert!(image.supported_on(Platform::MacOs));
        assert!(!image.supported_on(Platform::Linux));
        assert!(!image.supported_on(Platform::Windows));
        assert!(!image.supported_on(Platform::Android));
        assert!(!image.supported_on(Platform::Ios));
    }
}
