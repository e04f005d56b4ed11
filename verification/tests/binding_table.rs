use arto::config::KeyAction;
use arto::keybindings::binding_table::{contains_chars, display_order, SortColumn, SortIndicator, SortState};

fn bindings() -> Vec<KeyAction> {
    vec![
        KeyAction::new("j", "scroll.down"),
        KeyAction::new("k", "scroll.up"),
        KeyAction::new("Ctrl+Tab", "tab.next"),
        KeyAction::new("g g", "scroll.top"),
    ]
}

#[test]
fn sort_toggle_cycles_ascending_descending_off() {
    let start = SortState::new();
    assert_eq!(start.column, None);
    let first = start.toggle(SortColumn::Key);
    assert_eq!(first, SortState { column: Some(SortColumn::Key), ascending: true });
    let second = first.toggle(SortColumn::Key);
    assert_eq!(second, SortState { column: Some(SortColumn::Key), ascending: false });
    let third = second.toggle(SortColumn::Key);
    assert_eq!(third, SortState { column: None, ascending: true });
}

#[test]
fn sort_toggle_on_other_column_starts_ascending() {
    let by_key_down = SortState { column: Some(SortColumn::Key), ascending: false };
    let by_action = by_key_down.toggle(SortColumn::Action);
    assert_eq!(by_action, SortState { column: Some(SortColumn::Action), ascending: true });
}

#[test]
fn sort_indicator_marks_only_sorted_column() {
    let up = SortState { column: Some(SortColumn::Action), ascending: true };
    assert_eq!(up.indicator(SortColumn::Action), Some(SortIndicator::Up));
    assert_eq!(up.indicator(SortColumn::Key), None);
    let down = SortState { column: Some(SortColumn::Action), ascending: false };
    assert_eq!(down.indicator(SortColumn::Action), Some(SortIndicator::Down));
}

#[test]
fn contains_chars_finds_runs() {
    let hay: Vec<char> = "scroll down".chars().collect();
    let yes: Vec<char> = "ll d".chars().collect();
    let no: Vec<char> = "lld".chars().collect();
    assert!(contains_chars(&hay, &yes));
    assert!(!contains_chars(&hay, &no));
    assert!(contains_chars(&hay, &[]));
    assert!(!contains_chars(&no, &hay));
}

#[test]
fn display_order_unsorted_keeps_list_order() {
    let order = display_order(&bindings(), "", SortState::new());
    assert_eq!(order, vec![0, 1, 2, 3]);
}

#[test]
fn display_order_filters_by_key_or_action_label_ignoring_case() {
    // "SCROLL" matches the action labels "Scroll Down", "Scroll Up", "Scroll Top".
    let order = display_order(&bindings(), "SCROLL", SortState::new());
    assert_eq!(order, vec![0, 1, 3]);
    // "ctrl" matches the key "Ctrl+Tab" only.
    let order = display_order(&bindings(), "ctrl", SortState::new());
    assert_eq!(order, vec![2]);
    let order = display_order(&bindings(), "nothing", SortState::new());
    assert!(order.is_empty());
}

#[test]
fn display_order_sorts_by_key_up_and_down() {
    let up = SortState { column: Some(SortColumn::Key), ascending: true };
    // lower-cased keys: "j", "k", "ctrl+tab", "g g"
    assert_eq!(display_order(&bindings(), "", up), vec![2, 3, 0, 1]);
    let down = SortState { column: Some(SortColumn::Key), ascending: false };
    assert_eq!(display_order(&bindings(), "", down), vec![1, 0, 3, 2]);
}

#[test]
fn display_order_sorts_by_action_label() {
    let up = SortState { column: Some(SortColumn::Action), ascending: true };
    // labels: "Scroll Down", "Scroll Up", "Tab Next", "Scroll Top"
    assert_eq!(display_order(&bindings(), "", up), vec![0, 3, 1, 2]);
}

#[test]
fn display_order_keeps_equal_keys_in_list_order() {
    let items = vec![
        KeyAction::new("J", "scroll.up"),
        KeyAction::new("a", "scroll.down"),
        KeyAction::new("j", "scroll.down"),
    ];
    let up = SortState { column: Some(SortColumn::Key), ascending: true };
    assert_eq!(display_order(&items, "", up), vec![1, 0, 2]);
    let down = SortState { column: Some(SortColumn::Key), ascending: false };
    assert_eq!(display_order(&items, "", down), vec![0, 2, 1]);
}
