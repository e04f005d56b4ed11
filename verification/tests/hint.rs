use arto::config::{BindingSet, KeyAction};
use arto::keybindings::context::KeyContext;
use arto::keybindings::hint::{
    format_key_name_hint, format_shortcut_hint, shortcut_hint_for_action,
    shortcut_hint_for_context_action, shortcut_hint_for_global_action, HintStyle,
};

#[test]
fn format_shortcut_hint_uses_menu_style_symbols() {
    assert_eq!(format_shortcut_hint("Cmd+Shift+o", HintStyle::MacSymbols), "⌘⇧O");
    assert_eq!(format_shortcut_hint("Ctrl+w", HintStyle::MacSymbols), "⌃W");
}

#[test]
fn format_shortcut_hint_uses_windows_style() {
    assert_eq!(format_shortcut_hint("Cmd+Shift+o", HintStyle::Plain), "Ctrl+Shift+O");
    assert_eq!(format_shortcut_hint("Ctrl+w", HintStyle::Plain), "Ctrl+W");
    assert_eq!(format_shortcut_hint("Alt+ArrowDown", HintStyle::Plain), "Alt+Down");
}

#[test]
fn format_shortcut_hint_formats_arrow_keys() {
    assert_eq!(format_shortcut_hint("ArrowDown", HintStyle::MacSymbols), "↓");
    assert_eq!(format_shortcut_hint("Cmd+ArrowLeft", HintStyle::MacSymbols), "⌘←");
}

#[test]
fn hint_format_shortcut_hint_formats_arrow_keys() {
    assert_eq!(format_shortcut_hint("ArrowDown", HintStyle::Plain), "Down");
    assert_eq!(format_shortcut_hint("Cmd+ArrowLeft", HintStyle::Plain), "Ctrl+Left");
}

#[test]
fn key_names_plain_keep_long_names_and_upcase_letters() {
    assert_eq!(format_key_name_hint("BracketLeft", HintStyle::Plain), "[");
    assert_eq!(format_key_name_hint("F5", HintStyle::Plain), "F5");
    assert_eq!(format_key_name_hint("q", HintStyle::Plain), "Q");
    assert_eq!(format_key_name_hint("é", HintStyle::Plain), "é");
    assert_eq!(format_key_name_hint("é", HintStyle::MacSymbols), "É");
    assert_eq!(format_key_name_hint("Escape", HintStyle::MacSymbols), "⎋");
}

fn sample_bindings() -> BindingSet {
    BindingSet {
        global: vec![KeyAction::new("Cmd+f", "search.open"), KeyAction::new("Cmd+g", "search.open")],
        sidebar: vec![KeyAction::new("Slash", "search.open")],
        ..Default::default()
    }
}

#[test]
fn hint_prefers_context_binding_then_global() {
    let b = sample_bindings();
    assert_eq!(
        shortcut_hint_for_action(&b, "search.open", Some(KeyContext::Sidebar), HintStyle::Plain),
        Some("/".to_string())
    );
    assert_eq!(
        shortcut_hint_for_context_action(&b, KeyContext::Content, "search.open", HintStyle::Plain),
        Some("Ctrl+F".to_string())
    );
    assert_eq!(
        shortcut_hint_for_global_action(&b, "search.open", HintStyle::MacSymbols),
        Some("⌘F".to_string())
    );
    assert_eq!(shortcut_hint_for_global_action(&b, "tab.new", HintStyle::Plain), None);
}

#[test]
fn format_shortcut_hint_formats_each_chord_of_a_sequence() {
    assert_eq!(format_shortcut_hint("Ctrl+w h", HintStyle::MacSymbols), "⌃W H");
    assert_eq!(format_shortcut_hint("Ctrl+w h", HintStyle::Plain), "Ctrl+W H");
    assert_eq!(format_shortcut_hint("g g", HintStyle::Plain), "G G");
    assert_eq!(format_shortcut_hint("Ctrl+x Ctrl+s", HintStyle::Plain), "Ctrl+X Ctrl+S");
}
