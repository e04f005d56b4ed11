use arto::config::{BindingSet, KeyAction};
use arto::keybindings::action::Action;
use arto::keybindings::context::KeyContext;
use arto::keybindings::presets::{emacs, resolve_bindings, validate_preset_bindings, vim};

#[test]
fn default_preset_resolves() {
    let resolved = arto::keybindings::presets::default::bindings().into_resolved_bindings();
    assert!(!resolved.is_empty());
}

#[test]
fn vim_preset_resolves() {
    let resolved = vim::bindings().into_resolved_bindings();
    assert!(!resolved.is_empty());
}

#[test]
fn emacs_preset_resolves() {
    let resolved = emacs::bindings().into_resolved_bindings();
    assert!(!resolved.is_empty());
}

#[test]
fn empty_resolves_to_nothing() {
    let bindings = resolve_bindings(&BindingSet::default());
    assert!(bindings.is_empty());
}

#[test]
fn bindings_resolve_directly() {
    let set = BindingSet {
        global: vec![KeyAction {
            key: "x".to_string(),
            action: "tab.close".to_string(),
        }],
        ..Default::default()
    };
    let bindings = resolve_bindings(&set);
    assert_eq!(bindings.len(), 1);
    assert_eq!(bindings[0].action, Action::TabClose);
}

#[test]
fn context_binding() {
    let set = BindingSet {
        sidebar: vec![KeyAction {
            key: "j".to_string(),
            action: "cursor.down".to_string(),
        }],
        ..Default::default()
    };
    let bindings = resolve_bindings(&set);
    assert_eq!(bindings.len(), 1);
    assert_eq!(bindings[0].context, Some(KeyContext::Sidebar));
    assert_eq!(bindings[0].action, Action::CursorDown);
}

#[test]
fn invalid_bindings_skipped() {
    let set = BindingSet {
        global: vec![
            KeyAction {
                key: "".to_string(),
                action: "scroll.down".to_string(),
            },
            KeyAction {
                key: "j".to_string(),
                action: "invalid.action".to_string(),
            },
            KeyAction {
                key: "k".to_string(),
                action: "scroll.up".to_string(),
            },
        ],
        ..Default::default()
    };
    let bindings = resolve_bindings(&set);
    assert_eq!(bindings.len(), 1);
    assert_eq!(bindings[0].action, Action::ScrollUp);
}

#[test]
fn every_preset_passes_validation() {
    assert!(validate_preset_bindings(&arto::keybindings::presets::default::bindings()));
    assert!(validate_preset_bindings(&vim::bindings()));
    assert!(validate_preset_bindings(&emacs::bindings()));
}

#[test]
fn validation_rejects_duplicates_and_unknown_entries() {
    let duplicate = BindingSet {
        global: vec![KeyAction::new("Ctrl+x", "tab.new"), KeyAction::new("Ctrl+x", "tab.close")],
        ..Default::default()
    };
    assert!(!validate_preset_bindings(&duplicate));
    let unknown = BindingSet {
        content: vec![KeyAction::new("j", "scroll.sideways")],
        ..Default::default()
    };
    assert!(!validate_preset_bindings(&unknown));
    let bad_key = BindingSet {
        search: vec![KeyAction::new("Hyper+j", "scroll.down")],
        ..Default::default()
    };
    assert!(!validate_preset_bindings(&bad_key));
}

#[test]
fn preset_default_is_default_bindings() {
    assert_eq!(arto::keybindings::presets::default_bindings(), arto::keybindings::presets::default::bindings());
}
