use arto::config::{BindingSet, KeyAction};
use arto::keybindings::action::Action;
use arto::keybindings::context::KeyContext;
use arto::keybindings::engine::{KeyMatchResult, KeybindingEngine};
use arto::keybindings::presets::{emacs, vim};
use arto::keybindings::shortcut::{KeyChord, ShortcutSequence};
use std::str::FromStr;

fn vim_bindings() -> BindingSet {
    vim::bindings()
}

fn default_bindings() -> BindingSet {
    arto::keybindings::presets::default_bindings()
}

fn chord(s: &str) -> KeyChord {
    ShortcutSequence::from_str(s)
        .unwrap()
        .chords
        .into_iter()
        .next()
        .unwrap()
}

#[test]
fn vim_scroll_down() {
    let config = vim_bindings();
    let mut engine = KeybindingEngine::new(&config);
    let result = engine.process_key(&chord("j"), false, KeyContext::Content);
    assert_eq!(result, KeyMatchResult::Matched(Action::ScrollDown));
}

#[test]
fn vim_sequence_gg() {
    let config = vim_bindings();
    let mut engine = KeybindingEngine::new(&config);

    let result = engine.process_key(&chord("g"), false, KeyContext::Content);
    assert_eq!(result, KeyMatchResult::Pending);

    let result = engine.process_key(&chord("g"), false, KeyContext::Content);
    assert_eq!(result, KeyMatchResult::Matched(Action::ScrollTop));
}

#[test]
fn vim_sequence_timeout_resets() {
    let config = vim_bindings();
    let mut engine = KeybindingEngine::new(&config);

    let result = engine.process_key(&chord("g"), false, KeyContext::Content);
    assert_eq!(result, KeyMatchResult::Pending);

    // A timed-out sequence starts over: "g" alone begins a new pending sequence.
    let result = engine.process_key_at(&chord("g"), false, KeyContext::Content, true);
    assert_eq!(result, KeyMatchResult::Pending);
}

#[test]
fn no_match_returns_no_match() {
    let config = default_bindings();
    let mut engine = KeybindingEngine::new(&config);
    // "x" isn't bound in defaults (only Cmd+Key shortcuts)
    let result = engine.process_key(&chord("x"), false, KeyContext::Content);
    assert_eq!(result, KeyMatchResult::NoMatch);
}

#[test]
fn default_binding_cmd_n() {
    let config = default_bindings();
    let mut engine = KeybindingEngine::new(&config);
    let result = engine.process_key(&chord("Cmd+n"), false, KeyContext::Content);
    assert_eq!(result, KeyMatchResult::Matched(Action::WindowNew));
}

#[test]
fn repeat_allowed_for_single_chord() {
    let config = vim_bindings();
    let mut engine = KeybindingEngine::new(&config);
    let result = engine.process_key(&chord("j"), false, KeyContext::Content);
    assert_eq!(result, KeyMatchResult::Matched(Action::ScrollDown));
    let result = engine.process_key(&chord("j"), true, KeyContext::Content);
    assert_eq!(result, KeyMatchResult::Matched(Action::ScrollDown));
}

#[test]
fn repeat_ignored_during_sequence() {
    let config = vim_bindings();
    let mut engine = KeybindingEngine::new(&config);

    let result = engine.process_key(&chord("g"), false, KeyContext::Content);
    assert_eq!(result, KeyMatchResult::Pending);

    let result = engine.process_key(&chord("g"), true, KeyContext::Content);
    assert_eq!(result, KeyMatchResult::Pending);
}

#[test]
fn failed_sequence_retries_last_key() {
    let config = vim_bindings();
    let mut engine = KeybindingEngine::new(&config);

    let result = engine.process_key(&chord("g"), false, KeyContext::Content);
    assert_eq!(result, KeyMatchResult::Pending);

    // "g j" is not a binding: the sequence fails and "j" is retried alone.
    let result = engine.process_key(&chord("j"), false, KeyContext::Content);
    assert_eq!(result, KeyMatchResult::Matched(Action::ScrollDown));
}

#[test]
fn reset_clears_pending() {
    let config = vim_bindings();
    let mut engine = KeybindingEngine::new(&config);

    engine.process_key(&chord("g"), false, KeyContext::Content);
    assert!(engine.is_pending());

    engine.reset();
    assert!(!engine.is_pending());
}

#[test]
fn context_specific_overrides_global() {
    let mut bindings = vim_bindings();
    bindings.sidebar.retain(|b| b.key != "j");
    bindings.sidebar.push(KeyAction {
        key: "j".to_string(),
        action: "cursor.down".to_string(),
    });
    let mut engine = KeybindingEngine::new(&bindings);

    let result = engine.process_key(&chord("j"), false, KeyContext::Sidebar);
    assert_eq!(result, KeyMatchResult::Matched(Action::CursorDown));

    let result = engine.process_key(&chord("j"), false, KeyContext::Content);
    assert_eq!(result, KeyMatchResult::Matched(Action::ScrollDown));
}

#[test]
fn different_context_binding_invisible() {
    let bindings = BindingSet {
        sidebar: vec![KeyAction {
            key: "j".to_string(),
            action: "cursor.down".to_string(),
        }],
        ..Default::default()
    };
    let mut engine = KeybindingEngine::new(&bindings);

    let result = engine.process_key(&chord("j"), false, KeyContext::QuickAccess);
    assert_eq!(result, KeyMatchResult::NoMatch);
}

#[test]
fn emacs_ctrl_n_scroll() {
    let bindings = emacs::bindings();
    let mut engine = KeybindingEngine::new(&bindings);
    let result = engine.process_key(&chord("Ctrl+n"), false, KeyContext::Content);
    assert_eq!(result, KeyMatchResult::Matched(Action::ScrollDown));
}

#[test]
fn user_overrides_default_cmd_n() {
    let mut custom = arto::keybindings::presets::default::bindings();
    let cmd_n = custom.global.iter_mut().find(|b| b.key == "Cmd+n").unwrap();
    cmd_n.action = "tab.new".to_string();

    let mut engine = KeybindingEngine::new(&custom);
    let result = engine.process_key(&chord("Cmd+n"), false, KeyContext::Content);
    assert_eq!(result, KeyMatchResult::Matched(Action::TabNew));
}

#[test]
fn escape_maps_to_cancel() {
    let config = vim_bindings();
    let mut engine = KeybindingEngine::new(&config);
    let result = engine.process_key(&chord("Escape"), false, KeyContext::Content);
    assert_eq!(result, KeyMatchResult::Matched(Action::Cancel));
}

#[test]
fn content_context_bindings_visible_in_content() {
    let config = vim_bindings();
    let mut engine = KeybindingEngine::new(&config);
    let result = engine.process_key(&chord("Ctrl+j"), false, KeyContext::Content);
    assert_eq!(result, KeyMatchResult::Matched(Action::ContentNext));
}

#[test]
fn content_context_bindings_invisible_in_sidebar() {
    let config = vim_bindings();
    let mut engine = KeybindingEngine::new(&config);
    let result = engine.process_key(&chord("Ctrl+j"), false, KeyContext::Sidebar);
    assert_eq!(result, KeyMatchResult::NoMatch);
}

#[test]
fn two_chord_sequence_ctrl_w_h() {
    let config = vim_bindings();
    let mut engine = KeybindingEngine::new(&config);
    assert_eq!(
        engine.process_key(&chord("Ctrl+w"), false, KeyContext::Content),
        KeyMatchResult::Pending
    );
    assert_eq!(
        engine.process_key(&chord("h"), false, KeyContext::Content),
        KeyMatchResult::Matched(Action::FocusLeftSidebar)
    );
    assert!(!engine.is_pending());
}
