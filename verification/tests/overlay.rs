use arto::keybindings::action::Action;
use arto::keybindings::overlay::{
    close_shortcut_overlay, finish_closing, is_shortcut_overlay_close_key, is_shortcut_overlay_visible,
    overlay_action_label, shortcut_column_count, shortcut_overlay_scroll_delta,
    split_shortcut_help_columns, toggle_shortcut_overlay, ShortcutHelpItem, ShortcutOverlayVisibility,
    MOD_CONTROL,
};

#[test]
fn column_count_breakpoints() {
    assert_eq!(shortcut_column_count(700), 1);
    assert_eq!(shortcut_column_count(800), 2);
    assert_eq!(shortcut_column_count(1200), 3);
    assert_eq!(shortcut_column_count(1500), 4);
    assert_eq!(shortcut_column_count(1900), 5);
}

fn items(n: usize) -> Vec<ShortcutHelpItem> {
    (0..n)
        .map(|i| ShortcutHelpItem {
            key: format!("k{i}"),
            action: format!("a{i}"),
        })
        .collect::<Vec<_>>()
}

#[test]
fn split_shortcuts_into_balanced_columns() {
    let columns = split_shortcut_help_columns(items(10), 1200);
    assert_eq!(columns.len(), 3);
    assert_eq!(columns[0].len(), 4);
    assert_eq!(columns[1].len(), 4);
    assert_eq!(columns[2].len(), 2);
}

#[test]
fn split_keeps_order_and_drops_empty_columns() {
    let columns = split_shortcut_help_columns(items(5), 1500);
    assert_eq!(columns.len(), 3);
    let flat: Vec<_> = columns.into_iter().flatten().map(|i| i.key).collect();
    assert_eq!(flat, vec!["k0", "k1", "k2", "k3", "k4"]);
    assert!(split_shortcut_help_columns(Vec::new(), 1500).is_empty());
    assert_eq!(split_shortcut_help_columns(items(2), 1900).len(), 2);
}

#[test]
fn overlay_labels_drop_group_prefix() {
    assert_eq!(overlay_action_label(Action::CopyFilePath), "Copy File Path");
    assert_eq!(overlay_action_label(Action::HelpShowKeyboardShortcuts), "Show Keyboard Shortcuts");
    assert_eq!(overlay_action_label(Action::ScrollDown), "Scroll Down");
}

#[test]
fn overlay_visibility_transitions() {
    let open = toggle_shortcut_overlay(ShortcutOverlayVisibility::Hidden);
    assert_eq!(open.next, ShortcutOverlayVisibility::Visible);
    assert!(!open.hide_after_animation);
    let close = toggle_shortcut_overlay(ShortcutOverlayVisibility::Visible);
    assert_eq!(close.next, ShortcutOverlayVisibility::Closing);
    assert!(close.hide_after_animation);
    assert_eq!(finish_closing(ShortcutOverlayVisibility::Closing), ShortcutOverlayVisibility::Hidden);
    assert_eq!(finish_closing(ShortcutOverlayVisibility::Visible), ShortcutOverlayVisibility::Visible);
    let noop = close_shortcut_overlay(ShortcutOverlayVisibility::Hidden);
    assert_eq!(noop.next, ShortcutOverlayVisibility::Hidden);
    assert!(!noop.hide_after_animation);
    assert!(is_shortcut_overlay_visible(ShortcutOverlayVisibility::Closing));
    assert!(!is_shortcut_overlay_visible(ShortcutOverlayVisibility::Hidden));
}

#[test]
fn overlay_scroll_keys() {
    assert_eq!(shortcut_overlay_scroll_delta("j", 0), Some(56));
    assert_eq!(shortcut_overlay_scroll_delta("ArrowUp", 0), Some(-56));
    assert_eq!(shortcut_overlay_scroll_delta("N", MOD_CONTROL), Some(56));
    assert_eq!(shortcut_overlay_scroll_delta("p", MOD_CONTROL), Some(-56));
    assert_eq!(shortcut_overlay_scroll_delta("j", MOD_CONTROL), None);
    assert_eq!(shortcut_overlay_scroll_delta("x", 0), None);
    assert!(is_shortcut_overlay_close_key("Escape", 0));
    assert!(!is_shortcut_overlay_close_key("Escape", MOD_CONTROL));
}
