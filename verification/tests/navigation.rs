use arto::navigation::{
    build_path_with_range, cycle_tab_index, focus_after_left_toggle, focus_after_right_toggle, hover_after_focus,
    initial_index_cursor, move_index_cursor, tab_cycle_step, CursorDirection, FocusedPanel, HoverState, TabCycleStep,
};

#[test]
fn move_index_cursor_down_from_none_selects_first() {
    let next = move_index_cursor(None, 3, &CursorDirection::Down);
    assert_eq!(next, Some(0));
}

#[test]
fn move_index_cursor_down_advances_and_stops_at_end() {
    let next = move_index_cursor(Some(1), 3, &CursorDirection::Down);
    assert_eq!(next, Some(2));

    let at_end = move_index_cursor(Some(2), 3, &CursorDirection::Down);
    assert_eq!(at_end, Some(2));
}

#[test]
fn move_index_cursor_up_from_none_selects_last() {
    let next = move_index_cursor(None, 3, &CursorDirection::Up);
    assert_eq!(next, Some(2));
}

#[test]
fn move_index_cursor_up_moves_and_stops_at_start() {
    let next = move_index_cursor(Some(2), 3, &CursorDirection::Up);
    assert_eq!(next, Some(1));

    let at_start = move_index_cursor(Some(0), 3, &CursorDirection::Up);
    assert_eq!(at_start, Some(0));
}

#[test]
fn tab_cycling_wraps_around() {
    assert_eq!(cycle_tab_index(0, 3, true), 1);
    assert_eq!(cycle_tab_index(2, 3, true), 0);
    assert_eq!(cycle_tab_index(0, 3, false), 2);
    assert_eq!(cycle_tab_index(1, 3, false), 0);
}

#[test]
fn path_with_range_formats_lines() {
    assert_eq!(
        build_path_with_range(Some("/a/b.md"), Some(3), Some(7)),
        Some(("/a/b.md:3-7".to_string(), 3, 7))
    );
    assert_eq!(
        build_path_with_range(Some("/a/b.md"), Some(12), Some(12)),
        Some(("/a/b.md:12".to_string(), 12, 12))
    );
    assert_eq!(build_path_with_range(None, Some(1), Some(2)), None);
    assert_eq!(build_path_with_range(Some("x"), None, Some(2)), None);
    assert_eq!(build_path_with_range(Some("x"), Some(1), None), None);
}

#[test]
fn closing_focused_left_sidebar_returns_focus_to_content() {
    assert_eq!(focus_after_left_toggle(FocusedPanel::LeftSidebar, true), FocusedPanel::Content);
    assert_eq!(focus_after_left_toggle(FocusedPanel::QuickAccess, true), FocusedPanel::Content);
    assert_eq!(focus_after_left_toggle(FocusedPanel::RightSidebar, true), FocusedPanel::RightSidebar);
    assert_eq!(focus_after_left_toggle(FocusedPanel::LeftSidebar, false), FocusedPanel::LeftSidebar);
}

#[test]
fn closing_focused_right_sidebar_returns_focus_to_content() {
    assert_eq!(focus_after_right_toggle(FocusedPanel::RightSidebar, true), FocusedPanel::Content);
    assert_eq!(focus_after_right_toggle(FocusedPanel::LeftSidebar, true), FocusedPanel::LeftSidebar);
    assert_eq!(focus_after_right_toggle(FocusedPanel::RightSidebar, false), FocusedPanel::RightSidebar);
}

#[test]
fn focusing_an_unpinned_sidebar_shows_it_as_overlay() {
    let before = HoverState { left: false, right: true };
    assert_eq!(hover_after_focus(FocusedPanel::LeftSidebar, false, false, before), HoverState { left: true, right: false });
    assert_eq!(hover_after_focus(FocusedPanel::LeftSidebar, true, false, before), before);
    assert_eq!(hover_after_focus(FocusedPanel::RightSidebar, false, false, before), HoverState { left: false, right: true });
    assert_eq!(hover_after_focus(FocusedPanel::Content, false, false, before), HoverState { left: false, right: false });
}

#[test]
fn initial_index_cursor_selects_first_item_once() {
    assert_eq!(initial_index_cursor(None, 3), Some(0));
    assert_eq!(initial_index_cursor(None, 0), None);
    assert_eq!(initial_index_cursor(Some(2), 3), Some(2));
}

#[test]
fn tab_cycle_step_wraps_or_toggles_sidebar_tab() {
    assert_eq!(tab_cycle_step(FocusedPanel::Content, 2, 3, true), TabCycleStep::SwitchTo(0));
    assert_eq!(tab_cycle_step(FocusedPanel::Content, 0, 3, false), TabCycleStep::SwitchTo(2));
    assert_eq!(tab_cycle_step(FocusedPanel::Content, 0, 1, true), TabCycleStep::Stay);
    assert_eq!(tab_cycle_step(FocusedPanel::RightSidebar, 0, 3, true), TabCycleStep::ToggleRightSidebarTab);
}
