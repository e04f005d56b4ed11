use arto::config::{BindingSet, KeyAction};
use arto::keybindings::binding_edit::{can_submit, delete_binding, save_binding};
use arto::keybindings::context::KeyContext;

fn set_with_sidebar() -> BindingSet {
    let mut set = BindingSet::default();
    set.sidebar.push(KeyAction::new("j", "cursor.down"));
    set.sidebar.push(KeyAction::new("k", "cursor.up"));
    set.sidebar.push(KeyAction::new("j", "scroll.down"));
    set.global.push(KeyAction::new("j", "scroll.down"));
    set
}

#[test]
fn can_submit_needs_valid_key_and_action() {
    assert!(can_submit("Ctrl+k", "scroll.up", None));
    assert!(!can_submit("", "scroll.up", None));
    assert!(!can_submit("Ctrl+", "scroll.up", None));
    assert!(!can_submit("g g", "", None));
}

#[test]
fn can_submit_when_editing_needs_a_change() {
    assert!(!can_submit("j", "scroll.down", Some(("j", "scroll.down"))));
    assert!(can_submit("k", "scroll.down", Some(("j", "scroll.down"))));
    assert!(can_submit("j", "scroll.up", Some(("j", "scroll.down"))));
}

#[test]
fn save_binding_adds_or_updates_in_place() {
    let mut set = set_with_sidebar();
    save_binding(&mut set, Some(KeyContext::Sidebar), None, "l", "cursor.enter");
    assert_eq!(set.sidebar.len(), 4);
    assert_eq!(set.sidebar[3], KeyAction::new("l", "cursor.enter"));
    save_binding(&mut set, Some(KeyContext::Sidebar), Some(1), "Shift+k", "cursor.up");
    assert_eq!(set.sidebar[1], KeyAction::new("Shift+k", "cursor.up"));
    save_binding(&mut set, Some(KeyContext::Sidebar), Some(9), "x", "cursor.up");
    save_binding(&mut set, Some(KeyContext::Sidebar), None, "", "cursor.up");
    assert_eq!(set.sidebar.len(), 4);
    assert_eq!(set.global, vec![KeyAction::new("j", "scroll.down")]);
}

#[test]
fn delete_binding_removes_every_entry_of_the_key_in_one_context() {
    let mut set = set_with_sidebar();
    delete_binding(&mut set, Some(KeyContext::Sidebar), "j");
    assert_eq!(set.sidebar, vec![KeyAction::new("k", "cursor.up")]);
    assert_eq!(set.global.len(), 1);
    delete_binding(&mut set, None, "j");
    assert!(set.global.is_empty());
}
