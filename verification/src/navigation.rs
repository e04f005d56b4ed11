//! Keyboard navigation through lists and tabs, and the location text of a selection.
use vstd::prelude::*;

use crate::markdown::headings::{decimal_chars, spec_decimal};
use crate::text::{append_chars, append_str, string_from_chars};

verus! {

/// Direction of a cursor move.
#[derive(Debug, Clone, Copy, PartialEq, Eq, Structural)]
pub enum CursorDirection {
    Down,
    Up,
}

/// Where an index cursor goes in a list of `len` items: down from nothing selects the
/// first item, up from nothing the last; moves stop at either end without wrapping.
pub open spec fn spec_move_index_cursor(current: Option<usize>, len: usize, direction: CursorDirection) -> Option<usize> {
    match direction {
        CursorDirection::Down => match current {
            None => Some(0usize),
            Some(i) => if i + 1 < len { Some((i + 1) as usize) } else { Some(i) },
        },
        CursorDirection::Up => match current {
            None => Some((len - 1) as usize),
            Some(i) => if i == 0 { Some(0usize) } else { Some((i - 1) as usize) },
        },
    }
}

/// Move an index-based cursor up or down within a list of `len` items. Moving up from
/// nothing needs at least one item.
pub fn move_index_cursor(current: Option<usize>, len: usize, direction: &CursorDirection) -> (r: Option<usize>)
    requires
        len > 0 || !(current is None && *direction == CursorDirection::Up),
    ensures
        r == spec_move_index_cursor(current, len, *direction),
{
    match direction {
        CursorDirection::Down => match current {
            None => Some(0),
            Some(i) => if len > 0 && i < len - 1 { Some(i + 1) } else { Some(i) },
        },
        CursorDirection::Up => match current {
            None => Some(len - 1),
            Some(i) => if i == 0 { Some(0) } else { Some(i - 1) },
        },
    }
}

/// A cursor inside the list stays inside it, whatever the direction.
pub proof fn lemma_cursor_stays_in_list(current: Option<usize>, len: usize, direction: CursorDirection)
    requires
        len > 0,
        current matches Some(i) ==> i < len,
    ensures
        spec_move_index_cursor(current, len, direction) matches Some(j) && j < len,
{
}

/// The tab after (or before) tab `current` among `len` tabs, wrapping around.
pub open spec fn spec_cycle_tab(current: usize, len: usize, forward: bool) -> usize {
    if forward {
        ((current + 1) % (len as int)) as usize
    } else if current == 0 {
        (len - 1) as usize
    } else {
        (current - 1) as usize
    }
}

/// The index of the next (or previous) tab when cycling through `len` tabs.
pub fn cycle_tab_index(current: usize, len: usize, forward: bool) -> (r: usize)
    requires
        current < len,
    ensures
        r == spec_cycle_tab(current, len, forward),
        r < len,
{
    if forward {
        if current + 1 == len {
            assert((current + 1) % (len as int) == 0) by (nonlinear_arith)
                requires current + 1 == len, len > 0;
            0
        } else {
            assert((current + 1) % (len as int) == current + 1) by (nonlinear_arith)
                requires current + 1 < len;
            current + 1
        }
    } else if current == 0 {
        len - 1
    } else {
        current - 1
    }
}

/// Cycling forward and then back returns to the same tab.
pub proof fn lemma_cycle_back_and_forth(current: usize, len: usize)
    requires
        current < len,
    ensures
        spec_cycle_tab(spec_cycle_tab(current, len, true), len, false) == current,
        spec_cycle_tab(spec_cycle_tab(current, len, false), len, true) == current,
{
    if current + 1 == len {
        assert((current + 1) % (len as int) == 0) by (nonlinear_arith)
            requires current + 1 == len, len > 0;
    } else {
        assert((current + 1) % (len as int) == current + 1) by (nonlinear_arith)
            requires current + 1 < len;
    }
    if current == 0 {
        assert(((len - 1) + 1) % (len as int) == 0) by (nonlinear_arith)
            requires len > 0;
    } else {
        assert((current as int) % (len as int) == current) by (nonlinear_arith)
            requires 0 < current < len;
    }
}

/// The panel that has keyboard focus.
#[derive(Debug, Clone, Copy, PartialEq, Eq, Structural)]
pub enum FocusedPanel {
    Content,
    LeftSidebar,
    QuickAccess,
    RightSidebar,
}

/// Whether the left and right sidebars are shown as overlays (they are not pinned open).
#[derive(Debug, Clone, Copy, PartialEq, Eq, Structural)]
pub struct HoverState {
    pub left: bool,
    pub right: bool,
}

/// The focus after the left sidebar is toggled: closing it while it (or its quick access
/// list) has focus returns focus to the content.
pub open spec fn spec_focus_after_left_toggle(focused: FocusedPanel, closing: bool) -> FocusedPanel {
    if closing && (focused == FocusedPanel::LeftSidebar || focused == FocusedPanel::QuickAccess) {
        FocusedPanel::Content
    } else {
        focused
    }
}

/// The focus after the left sidebar, pinned open before when `closing`, is toggled.
pub fn focus_after_left_toggle(focused: FocusedPanel, closing: bool) -> (r: FocusedPanel)
    ensures
        r == spec_focus_after_left_toggle(focused, closing),
{
    match focused {
        FocusedPanel::LeftSidebar | FocusedPanel::QuickAccess => if closing { FocusedPanel::Content } else { focused },
        _ => focused,
    }
}

/// The focus after the right sidebar is toggled: closing it while it has focus returns
/// focus to the content.
pub open spec fn spec_focus_after_right_toggle(focused: FocusedPanel, closing: bool) -> FocusedPanel {
    if closing && focused == FocusedPanel::RightSidebar {
        FocusedPanel::Content
    } else {
        focused
    }
}

/// The focus after the right sidebar, pinned open before when `closing`, is toggled.
pub fn focus_after_right_toggle(focused: FocusedPanel, closing: bool) -> (r: FocusedPanel)
    ensures
        r == spec_focus_after_right_toggle(focused, closing),
{
    match focused {
        FocusedPanel::RightSidebar => if closing { FocusedPanel::Content } else { focused },
        _ => focused,
    }
}

/// The overlays after focus moves to `target`: a sidebar that is not pinned is shown as an
/// overlay and the other overlay is hidden; focusing the content hides both.
pub open spec fn spec_hover_after_focus(target: FocusedPanel, left_pinned: bool, right_pinned: bool, hover: HoverState) -> HoverState {
    match target {
        FocusedPanel::LeftSidebar | FocusedPanel::QuickAccess => if !left_pinned {
            HoverState { left: true, right: false }
        } else {
            hover
        },
        FocusedPanel::RightSidebar => if !right_pinned {
            HoverState { left: false, right: true }
        } else {
            hover
        },
        FocusedPanel::Content => HoverState { left: false, right: false },
    }
}

/// Which overlays show once focus moves to `target`.
pub fn hover_after_focus(target: FocusedPanel, left_pinned: bool, right_pinned: bool, hover: HoverState) -> (r: HoverState)
    ensures
        r == spec_hover_after_focus(target, left_pinned, right_pinned, hover),
{
    match target {
        FocusedPanel::LeftSidebar | FocusedPanel::QuickAccess => if !left_pinned {
            HoverState { left: true, right: false }
        } else {
            hover
        },
        FocusedPanel::RightSidebar => if !right_pinned {
            HoverState { left: false, right: true }
        } else {
            hover
        },
        FocusedPanel::Content => HoverState { left: false, right: false },
    }
}

/// The cursor of a list when its panel gains focus: the first item when none was selected
/// and the list has items, else the cursor as it was.
pub fn initial_index_cursor(current: Option<usize>, len: usize) -> (r: Option<usize>)
    ensures
        r == (if current is None && len > 0 { Some(0usize) } else { current }),
{
    match current {
        None => if len > 0 { Some(0) } else { None },
        Some(i) => Some(i),
    }
}

/// What a next-tab or previous-tab key does.
#[derive(Debug, Clone, Copy, PartialEq, Eq, Structural)]
pub enum TabCycleStep {
    /// Switch the right sidebar between its contents and search tabs.
    ToggleRightSidebarTab,
    /// Switch to the tab at this index.
    SwitchTo(usize),
    /// Nothing to switch to.
    Stay,
}

/// With the right sidebar focused, the key switches its tab; else, with more than one tab
/// open, it cycles through the tabs, wrapping around.
pub open spec fn spec_tab_cycle_step(focused: FocusedPanel, active: usize, len: usize, forward: bool) -> TabCycleStep {
    if focused == FocusedPanel::RightSidebar {
        TabCycleStep::ToggleRightSidebarTab
    } else if len > 1 {
        TabCycleStep::SwitchTo(spec_cycle_tab(active, len, forward))
    } else {
        TabCycleStep::Stay
    }
}

/// What the next-tab (`forward`) or previous-tab key does, with tab `active` of `len` open.
pub fn tab_cycle_step(focused: FocusedPanel, active: usize, len: usize, forward: bool) -> (r: TabCycleStep)
    requires
        len > 1 ==> active < len,
    ensures
        r == spec_tab_cycle_step(focused, active, len, forward),
{
    match focused {
        FocusedPanel::RightSidebar => TabCycleStep::ToggleRightSidebarTab,
        _ => if len > 1 {
            TabCycleStep::SwitchTo(cycle_tab_index(active, len, forward))
        } else {
            TabCycleStep::Stay
        },
    }
}

/// How far a dragged tab has got towards a window of its own.
#[derive(Debug, Clone, Copy, PartialEq, Eq, Structural)]
pub enum DetachPhase {
    /// Still over its window's tab bar.
    Attached,
    /// Waiting to detach.
    Pending,
    /// Its preview window is being created.
    Creating,
    /// Shown in a preview window.
    Detached,
}

/// What closing a window does to a tab drag.
#[derive(Debug, Clone, Copy, PartialEq, Eq, Structural)]
pub struct DragCleanup {
    /// Put the dragged tab back at its old place in the closing window.
    pub restore_tab: bool,
    /// Keep the preview window as a window of its own.
    pub commit_preview: bool,
    /// End the drag and tell the other windows.
    pub end_drag: bool,
}

/// When the closing window is where a tab drag started, the drag ends; a tab taken from
/// a window with other tabs goes back unless it has its own preview window, which is
/// then kept. Closing any other window leaves the drag alone.
pub open spec fn spec_drag_cleanup(is_source_window: bool, active: Option<(DetachPhase, usize)>) -> DragCleanup {
    if !is_source_window {
        DragCleanup { restore_tab: false, commit_preview: false, end_drag: false }
    } else {
        match active {
            None => DragCleanup { restore_tab: false, commit_preview: false, end_drag: true },
            Some((phase, source_tab_count)) => if phase == DetachPhase::Detached {
                DragCleanup { restore_tab: false, commit_preview: true, end_drag: true }
            } else {
                DragCleanup { restore_tab: source_tab_count != 1, commit_preview: false, end_drag: true }
            },
        }
    }
}

/// What closing a window does to a tab drag: `is_source_window` tells whether the drag
/// started in it, `active` gives the drag's phase and the tab count of its window.
pub fn drag_cleanup(is_source_window: bool, active: Option<(DetachPhase, usize)>) -> (r: DragCleanup)
    ensures
        r == spec_drag_cleanup(is_source_window, active),
{
    if !is_source_window {
        return DragCleanup { restore_tab: false, commit_preview: false, end_drag: false };
    }
    match active {
        None => DragCleanup { restore_tab: false, commit_preview: false, end_drag: true },
        Some((DetachPhase::Detached, _)) => DragCleanup { restore_tab: false, commit_preview: true, end_drag: true },
        Some((_, count)) => DragCleanup { restore_tab: count != 1, commit_preview: false, end_drag: true },
    }
}

/// The location text of a selection: `path:start-end`, or `path:line` when it spans
/// one line.
pub open spec fn spec_path_with_range(path: Seq<char>, start: u32, end: u32) -> Seq<char> {
    if start != end {
        path + seq![':'] + spec_decimal(start as nat) + seq!['-'] + spec_decimal(end as nat)
    } else {
        path + seq![':'] + spec_decimal(start as nat)
    }
}

/// Build a `path:start-end` or `path:line` string from a file path and line range;
/// `None` when the file or either line number is unknown.
pub fn build_path_with_range(file: Option<&str>, start: Option<u32>, end: Option<u32>) -> (r: Option<(String, u32, u32)>)
    ensures
        match (file, start, end) {
            (Some(f), Some(s), Some(e)) => r matches Some(t) && t.0@ == spec_path_with_range(f@, s, e)
                && t.1 == s && t.2 == e,
            _ => r is None,
        },
{
    let f = match file {
        Some(f) => f,
        None => return None,
    };
    let s = match start {
        Some(s) => s,
        None => return None,
    };
    let e = match end {
        Some(e) => e,
        None => return None,
    };
    let mut out: Vec<char> = Vec::new();
    append_str(&mut out, f);
    out.push(':');
    let sd = decimal_chars(s as usize);
    append_chars(&mut out, sd.as_slice());
    if s != e {
        out.push('-');
        let ed = decimal_chars(e as usize);
        append_chars(&mut out, ed.as_slice());
    }
    Some((string_from_chars(out.as_slice()), s, e))
}

} // verus!
