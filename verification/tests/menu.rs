use arto::config::BindingSet;
use arto::keybindings::action::Action;
use arto::keybindings::hint::HintStyle;
use arto::keybindings::presets::default_bindings;
use arto::menu::{is_close_menu_id, menu_action_for_id, menu_label_with_shortcut, MenuId};
use std::str::FromStr;

/// All MenuId variants must roundtrip through as_str/from_str.
#[test]
fn test_menu_id_roundtrip() {
    let all_ids = [
        "app.about",
        "file.new_window",
        "file.new_tab",
        "file.open",
        "file.open_directory",
        "file.reveal_in_finder",
        "file.copy_file_path",
        "file.close_tab",
        "file.close_all_tabs",
        "file.close_window",
        "window.close_all_child_windows",
        "window.close_all_windows",
        "app.preferences",
        "edit.find",
        "edit.find_next",
        "edit.find_previous",
        "view.toggle_left_sidebar",
        "view.toggle_right_sidebar",
        "view.actual_size",
        "view.zoom_in",
        "view.zoom_out",
        "history.back",
        "history.forward",
        "help.homepage",
    ];
    for id_str in &all_ids {
        let parsed = MenuId::from_str(id_str);
        assert!(parsed.is_some(), "MenuId::from_str({id_str}) should succeed");
        assert_eq!(parsed.unwrap().as_str(), *id_str, "Roundtrip failed for {id_str}");
    }
}

/// from_str returns None for unknown IDs
#[test]
fn test_menu_id_unknown_returns_none() {
    assert!(MenuId::from_str("unknown.action").is_none());
    assert!(MenuId::from_str("").is_none());
}

#[test]
fn close_menu_ids_are_recognized() {
    assert!(is_close_menu_id("file.close_tab"));
    assert!(is_close_menu_id("file.close_window"));
    assert!(!is_close_menu_id("file.new_tab"));
    assert!(!is_close_menu_id("file.close_all_tabs"));
}

#[test]
fn every_menu_action_names_an_action() {
    for i in 0..arto::menu::MENU_ID_COUNT {
        let id = MenuId::at(i);
        let action = menu_action_for_id(id).unwrap();
        assert!(Action::from_str(action).is_ok(), "{action} should be an action");
    }
    assert_eq!(menu_action_for_id(MenuId::Find), Some("search.open"));
    assert_eq!(menu_action_for_id(MenuId::ActualSize), Some("zoom.reset"));
}

#[test]
fn menu_label_includes_shortcut_hint() {
    let bindings = default_bindings();
    assert_eq!(
        menu_label_with_shortcut(&bindings, MenuId::NewWindow, "New Window", HintStyle::MacSymbols),
        "New Window\t⌘N"
    );
    assert_eq!(
        menu_label_with_shortcut(&bindings, MenuId::NewWindow, "New Window", HintStyle::Plain),
        "New Window\tCtrl+N"
    );
}

#[test]
fn menu_label_without_binding_is_base_label() {
    let bindings = BindingSet::default();
    assert_eq!(
        menu_label_with_shortcut(&bindings, MenuId::About, "About Arto", HintStyle::MacSymbols),
        "About Arto"
    );
}
