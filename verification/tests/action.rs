use arto::keybindings::action::{action_groups, Action};

/// Collect all actions from the action groups into a flat Vec.
fn all_actions() -> Vec<Action> {
    action_groups()
        .into_iter()
        .flat_map(|(_, actions)| actions.into_iter())
        .collect()
}

#[test]
fn all_actions_count() {
    assert_eq!(all_actions().len(), 82);
}

#[test]
fn action_display_roundtrip() {
    for action in all_actions() {
        let s = action.to_string();
        let parsed: Action = s
            .parse()
            .unwrap_or_else(|e| panic!("Failed to parse {s:?} back to Action: {e:?}"));
        assert_eq!(action, parsed, "roundtrip failed for {s:?}");
    }
}

#[test]
fn display_format() {
    assert_eq!(Action::ScrollDown.to_string(), "scroll.down");
    assert_eq!(Action::TabNew.to_string(), "tab.new");
    assert_eq!(Action::CopyFilePath.to_string(), "clipboard.copy_file_path");
    assert_eq!(Action::Cancel.to_string(), "cancel");
    assert_eq!(Action::FocusLeftSidebar.to_string(), "focus.left_sidebar");
}

#[test]
fn parse_valid() {
    assert_eq!("scroll.down".parse::<Action>().unwrap(), Action::ScrollDown);
    assert_eq!("cancel".parse::<Action>().unwrap(), Action::Cancel);
    assert_eq!(
        "clipboard.copy_code".parse::<Action>().unwrap(),
        Action::CopyCode
    );
}

#[test]
fn action_parse_invalid() {
    assert!("unknown.action".parse::<Action>().is_err());
    assert!("".parse::<Action>().is_err());
    assert!("scroll".parse::<Action>().is_err());
}

#[test]
fn no_duplicate_display_strings() {
    let mut seen = std::collections::HashSet::new();
    for action in all_actions() {
        let s = action.to_string();
        assert!(seen.insert(s.clone()), "duplicate display string: {s:?}");
    }
}

#[test]
fn action_parse_error_keeps_rejected_text() {
    let err = "scroll.sideways".parse::<Action>().unwrap_err();
    assert_eq!(err.0, "scroll.sideways");
}

#[test]
fn action_groups_labels_in_order() {
    let labels: Vec<&str> = action_groups().iter().map(|(label, _)| *label).collect();
    assert_eq!(labels.len(), 17);
    assert_eq!(labels[0], "Scroll");
    assert_eq!(labels[11], "Right Sidebar");
    assert_eq!(labels[16], "Cancel");
}
