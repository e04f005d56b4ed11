use arto::keybindings::action::Action as KbAction;
use arto::keybindings::conflicts::{check_conflict, check_conflict_excluding, BindingNotice};
use arto::keybindings::context::KeyContext;
use arto::keybindings::labels::{action_label, context_label};
use arto::keybindings::presets::ResolvedBinding;
use arto::keybindings::shortcut::ShortcutSequence;
use std::str::FromStr;

fn binding(key: &str, action: KbAction, context: Option<KeyContext>) -> ResolvedBinding {
    ResolvedBinding {
        sequence: ShortcutSequence::from_str(key).unwrap(),
        action,
        context,
    }
}

#[test]
fn action_label_converts_dot_and_underscore() {
    assert_eq!(action_label("scroll.down"), "Scroll Down");
    assert_eq!(action_label("tab.close_all"), "Tab Close All");
    assert_eq!(action_label("cancel"), "Cancel");
    assert_eq!(action_label("clipboard.copy_file_path"), "Clipboard Copy File Path");
}

#[test]
fn action_label_keeps_empty_words() {
    assert_eq!(action_label("a..b"), "A  B");
    assert_eq!(action_label(""), "");
    assert_eq!(action_label("ßx"), "SSx");
}

#[test]
fn context_label_display() {
    assert_eq!(context_label(None), "Global");
    assert_eq!(context_label(Some(KeyContext::Content)), "Content");
    assert_eq!(context_label(Some(KeyContext::RightSidebar)), "Right Sidebar");
}

#[test]
fn same_key_global_is_conflict() {
    let resolved = vec![binding("j", KbAction::ScrollDown, None)];
    let result = check_conflict(&resolved, "j", None);
    assert!(matches!(result, Some(BindingNotice::Conflict(_))));
}

#[test]
fn conflict_message_names_action_and_context() {
    let resolved = vec![binding("j", KbAction::ScrollDown, None)];
    match check_conflict(&resolved, "j", None) {
        Some(BindingNotice::Conflict(msg)) => {
            assert_eq!(msg, "Conflicts with \"Scroll Down\" (Global)")
        }
        other => panic!("Expected Conflict, got {other:?}"),
    }
}

#[test]
fn context_overriding_global_is_overwrite() {
    let resolved = vec![binding("j", KbAction::ScrollDown, None)];
    let result = check_conflict(&resolved, "j", Some(KeyContext::Content));
    assert!(matches!(result, Some(BindingNotice::Overwrite(_))));
}

#[test]
fn override_message_names_global_binding() {
    let resolved = vec![binding("j", KbAction::ScrollDown, None)];
    match check_conflict(&resolved, "j", Some(KeyContext::Content)) {
        Some(BindingNotice::Overwrite(msg)) => {
            assert_eq!(msg, "Overrides \"Scroll Down\" (Global) in this context")
        }
        other => panic!("Expected Overwrite, got {other:?}"),
    }
}

#[test]
fn same_context_is_conflict() {
    let resolved = vec![binding("j", KbAction::CursorDown, Some(KeyContext::Sidebar))];
    let result = check_conflict(&resolved, "j", Some(KeyContext::Sidebar));
    assert!(matches!(result, Some(BindingNotice::Conflict(_))));
}

#[test]
fn different_contexts_no_overlap() {
    let resolved = vec![binding("j", KbAction::CursorDown, Some(KeyContext::Sidebar))];
    let result = check_conflict(&resolved, "j", Some(KeyContext::Content));
    assert!(result.is_none());
}

#[test]
fn invalid_key_returns_none() {
    let resolved = vec![binding("j", KbAction::ScrollDown, None)];
    let result = check_conflict(&resolved, "", None);
    assert!(result.is_none());
}

#[test]
fn no_match_returns_none() {
    let resolved = vec![binding("j", KbAction::ScrollDown, None)];
    let result = check_conflict(&resolved, "k", None);
    assert!(result.is_none());
}

#[test]
fn global_overridden_by_multiple_contexts_lists_all() {
    let resolved = vec![
        binding("j", KbAction::CursorDown, Some(KeyContext::Sidebar)),
        binding("j", KbAction::CursorDown, Some(KeyContext::Content)),
    ];
    let result = check_conflict(&resolved, "j", None);
    match result {
        Some(BindingNotice::Overwrite(msg)) => {
            assert!(msg.contains("Content"), "should list Content: {msg}");
            assert!(msg.contains("Sidebar"), "should list Sidebar: {msg}");
            assert_eq!(msg, "Will be overridden in: Content, Sidebar");
        }
        other => panic!("Expected Overwrite, got {other:?}"),
    }
}

#[test]
fn overriding_contexts_are_listed_once() {
    let resolved = vec![
        binding("j", KbAction::CursorDown, Some(KeyContext::Search)),
        binding("j", KbAction::ScrollDown, Some(KeyContext::Search)),
        binding("j", KbAction::CursorDown, Some(KeyContext::QuickAccess)),
    ];
    match check_conflict(&resolved, "j", None) {
        Some(BindingNotice::Overwrite(msg)) => {
            assert_eq!(msg, "Will be overridden in: Quick Access, Search")
        }
        other => panic!("Expected Overwrite, got {other:?}"),
    }
}

#[test]
fn conflict_wins_over_earlier_override() {
    let resolved = vec![
        binding("j", KbAction::ScrollDown, None),
        binding("j", KbAction::CursorDown, Some(KeyContext::Sidebar)),
    ];
    assert!(matches!(
        check_conflict(&resolved, "j", Some(KeyContext::Sidebar)),
        Some(BindingNotice::Conflict(_))
    ));
}

#[test]
fn editing_binding_is_excluded() {
    let resolved = vec![binding("j", KbAction::ScrollDown, None)];
    assert!(check_conflict_excluding(&resolved, "j", None, "j", "scroll.down").is_none());
    assert!(matches!(
        check_conflict_excluding(&resolved, "j", None, "j", "scroll.up"),
        Some(BindingNotice::Conflict(_))
    ));
}
