//! The actions that keyboard shortcuts trigger, and their dot-separated names.
use vstd::prelude::*;

use crate::text::{chars_eq, chars_of};

verus! {

/// All actions that can be triggered by keyboard shortcuts.
///
/// Each variant maps to a dot-separated name (e.g. `ScrollDown` and `"scroll.down"`).
#[derive(Debug, Clone, Copy, PartialEq, Eq, Hash, Structural)]
pub enum Action {
    // Scroll
    ScrollDown,
    ScrollUp,
    ScrollPageDown,
    ScrollPageUp,
    ScrollHalfPageDown,
    ScrollHalfPageUp,
    ScrollTop,
    ScrollBottom,
    // Tab
    TabNew,
    TabClose,
    TabCloseAll,
    TabCloseOthers,
    TabTogglePin,
    TabOpenInNewWindow,
    TabNext,
    TabPrev,
    // History
    HistoryBack,
    HistoryForward,
    // Search
    SearchOpen,
    SearchNext,
    SearchPrev,
    SearchClear,
    SearchPinCurrent,
    // Zoom
    ZoomIn,
    ZoomOut,
    ZoomReset,
    // Clipboard
    CopyFilePath,
    CopyFilePathWithLine,
    CopyFilePathWithRange,
    CopyAsMarkdown,
    CopyCode,
    CopyCodeAsMarkdown,
    CopyTableAsTsv,
    CopyTableAsCsv,
    CopyTableAsMarkdown,
    CopyImage,
    CopyImageWithBackground,
    CopyImagePath,
    CopyImageAsMarkdown,
    CopyLinkPath,
    // Window
    WindowNew,
    WindowClose,
    WindowCloseAllChildWindows,
    WindowCloseAllWindows,
    WindowToggleSidebar,
    WindowToggleRightSidebar,
    WindowReload,
    // Focus
    FocusLeftSidebar,
    FocusRightSidebar,
    FocusQuickAccess,
    FocusContent,
    // File
    FileOpen,
    FileOpenDirectory,
    FileSetParentAsRoot,
    FileOpenLink,
    FileOpenLinkInNewTab,
    FileSaveImageAs,
    FilePreferences,
    FileRevealInFinder,
    // App
    AppAbout,
    AppQuit,
    AppGoToHomepage,
    HelpShowKeyboardShortcuts,
    // Sidebar
    SidebarToggleShowAllFiles,
    // Right Sidebar
    RightSidebarShowContents,
    RightSidebarShowSearch,
    // Theme
    ThemeSetLight,
    ThemeSetDark,
    ThemeSetAuto,
    // Cursor
    CursorDown,
    CursorUp,
    CursorEnter,
    CursorOpen,
    CursorCollapse,
    // Content
    ContentNext,
    ContentPrev,
    ContentNextHeading,
    ContentPrevHeading,
    // Directory
    DirectoryParent,
    DirectoryBack,
    DirectoryForward,
    // Cancel
    Cancel,
}

/// Error for a name that no action carries; holds the rejected text.
#[derive(Debug, Clone, PartialEq, Eq)]
pub struct ActionParseError(pub String);

/// Number of actions.
pub const ACTION_COUNT: usize = 82;

/// The character at `i`, or NUL when `i` is out of range.
pub open spec fn char_at_or_nul(s: Seq<char>, i: int) -> char {
    if 0 <= i < s.len() { s[i] } else { '\0' }
}

/// Four positions that tell every action name apart from every other.
pub open spec fn name_fingerprint(s: Seq<char>) -> (char, char, char, char) {
    (char_at_or_nul(s, 0), char_at_or_nul(s, 15), char_at_or_nul(s, s.len() - 3), char_at_or_nul(s, s.len() - 9))
}

/// What parsing the text `s` gives: the action named `s`, or an error holding `s`
/// when no action has that name.
pub open spec fn parse_outcome(s: Seq<char>, r: Result<Action, ActionParseError>) -> bool {
    match r {
        Ok(a) => a.spec_name() == s,
        Err(e) => e.0@ == s && forall|a: Action| #[trigger] a.spec_name() != s,
    }
}

impl Action {
    /// The dot-separated name of the action.
    pub open spec fn spec_name(self) -> Seq<char> {
        match self {
            Action::ScrollDown => "scroll.down"@,
            Action::ScrollUp => "scroll.up"@,
            Action::ScrollPageDown => "scroll.page_down"@,
            Action::ScrollPageUp => "scroll.page_up"@,
            Action::ScrollHalfPageDown => "scroll.half_page_down"@,
            Action::ScrollHalfPageUp => "scroll.half_page_up"@,
            Action::ScrollTop => "scroll.top"@,
            Action::ScrollBottom => "scroll.bottom"@,
            Action::TabNew => "tab.new"@,
            Action::TabClose => "tab.close"@,
            Action::TabCloseAll => "tab.close_all"@,
            Action::TabCloseOthers => "tab.close_others"@,
            Action::TabTogglePin => "tab.toggle_pin"@,
            Action::TabOpenInNewWindow => "tab.open_in_new_window"@,
            Action::TabNext => "tab.next"@,
            Action::TabPrev => "tab.prev"@,
            Action::HistoryBack => "history.back"@,
            Action::HistoryForward => "history.forward"@,
            Action::SearchOpen => "search.open"@,
            Action::SearchNext => "search.next"@,
            Action::SearchPrev => "search.prev"@,
            Action::SearchClear => "search.clear"@,
            Action::SearchPinCurrent => "search.pin_current"@,
            Action::ZoomIn => "zoom.in"@,
            Action::ZoomOut => "zoom.out"@,
            Action::ZoomReset => "zoom.reset"@,
            Action::CopyFilePath => "clipboard.copy_file_path"@,
            Action::CopyFilePathWithLine => "clipboard.copy_file_path_with_line"@,
            Action::CopyFilePathWithRange => "clipboard.copy_file_path_with_range"@,
            Action::CopyAsMarkdown => "clipboard.copy_as_markdown"@,
            Action::CopyCode => "clipboard.copy_code"@,
            Action::CopyCodeAsMarkdown => "clipboard.copy_code_as_markdown"@,
            Action::CopyTableAsTsv => "clipboard.copy_table_as_tsv"@,
            Action::CopyTableAsCsv => "clipboard.copy_table_as_csv"@,
            Action::CopyTableAsMarkdown => "clipboard.copy_table_as_markdown"@,
            Action::CopyImage => "clipboard.copy_image"@,
            Action::CopyImageWithBackground => "clipboard.copy_image_with_background"@,
            Action::CopyImagePath => "clipboard.copy_image_path"@,
            Action::CopyImageAsMarkdown => "clipboard.copy_image_as_markdown"@,
            Action::CopyLinkPath => "clipboard.copy_link_path"@,
            Action::WindowNew => "window.new"@,
            Action::WindowClose => "window.close"@,
            Action::WindowCloseAllChildWindows => "window.close_all_child_windows"@,
            Action::WindowCloseAllWindows => "window.close_all_windows"@,
            Action::WindowToggleSidebar => "window.toggle_sidebar"@,
            Action::WindowToggleRightSidebar => "window.toggle_right_sidebar"@,
            Action::WindowReload => "window.reload"@,
            Action::FocusLeftSidebar => "focus.left_sidebar"@,
            Action::FocusRightSidebar => "focus.right_sidebar"@,
            Action::FocusQuickAccess => "focus.quick_access"@,
            Action::FocusContent => "focus.content"@,
            Action::FileOpen => "file.open"@,
            Action::FileOpenDirectory => "file.open_directory"@,
            Action::FileSetParentAsRoot => "file.set_parent_as_root"@,
            Action::FileOpenLink => "file.open_link"@,
            Action::FileOpenLinkInNewTab => "file.open_link_in_new_tab"@,
            Action::FileSaveImageAs => "file.save_image_as"@,
            Action::FilePreferences => "file.preferences"@,
            Action::FileRevealInFinder => "file.reveal_in_finder"@,
            Action::AppAbout => "app.about"@,
            Action::AppQuit => "app.quit"@,
            Action::AppGoToHomepage => "app.go_to_homepage"@,
            Action::HelpShowKeyboardShortcuts => "help.show_keyboard_shortcuts"@,
            Action::SidebarToggleShowAllFiles => "sidebar.toggle_show_all_files"@,
            Action::RightSidebarShowContents => "right_sidebar.show_contents"@,
            Action::RightSidebarShowSearch => "right_sidebar.show_search"@,
            Action::ThemeSetLight => "theme.set_light"@,
            Action::ThemeSetDark => "theme.set_dark"@,
            Action::ThemeSetAuto => "theme.set_auto"@,
            Action::CursorDown => "cursor.down"@,
            Action::CursorUp => "cursor.up"@,
            Action::CursorEnter => "cursor.enter"@,
            Action::CursorOpen => "cursor.open"@,
            Action::CursorCollapse => "cursor.collapse"@,
            Action::ContentNext => "content.next"@,
            Action::ContentPrev => "content.prev"@,
            Action::ContentNextHeading => "content.next_heading"@,
            Action::ContentPrevHeading => "content.prev_heading"@,
            Action::DirectoryParent => "directory.parent"@,
            Action::DirectoryBack => "directory.back"@,
            Action::DirectoryForward => "directory.forward"@,
            Action::Cancel => "cancel"@,
        }
    }

    /// Position of the action in declaration order.
    pub open spec fn spec_index(self) -> int {
        match self {
            Action::ScrollDown => 0,
            Action::ScrollUp => 1,
            Action::ScrollPageDown => 2,
            Action::ScrollPageUp => 3,
            Action::ScrollHalfPageDown => 4,
            Action::ScrollHalfPageUp => 5,
            Action::ScrollTop => 6,
            Action::ScrollBottom => 7,
            Action::TabNew => 8,
            Action::TabClose => 9,
            Action::TabCloseAll => 10,
            Action::TabCloseOthers => 11,
            Action::TabTogglePin => 12,
            Action::TabOpenInNewWindow => 13,
            Action::TabNext => 14,
            Action::TabPrev => 15,
            Action::HistoryBack => 16,
            Action::HistoryForward => 17,
            Action::SearchOpen => 18,
            Action::SearchNext => 19,
            Action::SearchPrev => 20,
            Action::SearchClear => 21,
            Action::SearchPinCurrent => 22,
            Action::ZoomIn => 23,
            Action::ZoomOut => 24,
            Action::ZoomReset => 25,
            Action::CopyFilePath => 26,
            Action::CopyFilePathWithLine => 27,
            Action::CopyFilePathWithRange => 28,
            Action::CopyAsMarkdown => 29,
            Action::CopyCode => 30,
            Action::CopyCodeAsMarkdown => 31,
            Action::CopyTableAsTsv => 32,
            Action::CopyTableAsCsv => 33,
            Action::CopyTableAsMarkdown => 34,
            Action::CopyImage => 35,
            Action::CopyImageWithBackground => 36,
            Action::CopyImagePath => 37,
            Action::CopyImageAsMarkdown => 38,
            Action::CopyLinkPath => 39,
            Action::WindowNew => 40,
            Action::WindowClose => 41,
            Action::WindowCloseAllChildWindows => 42,
            Action::WindowCloseAllWindows => 43,
            Action::WindowToggleSidebar => 44,
            Action::WindowToggleRightSidebar => 45,
            Action::WindowReload => 46,
            Action::FocusLeftSidebar => 47,
            Action::FocusRightSidebar => 48,
            Action::FocusQuickAccess => 49,
            Action::FocusContent => 50,
            Action::FileOpen => 51,
            Action::FileOpenDirectory => 52,
            Action::FileSetParentAsRoot => 53,
            Action::FileOpenLink => 54,
            Action::FileOpenLinkInNewTab => 55,
            Action::FileSaveImageAs => 56,
            Action::FilePreferences => 57,
            Action::FileRevealInFinder => 58,
            Action::AppAbout => 59,
            Action::AppQuit => 60,
            Action::AppGoToHomepage => 61,
            Action::HelpShowKeyboardShortcuts => 62,
            Action::SidebarToggleShowAllFiles => 63,
            Action::RightSidebarShowContents => 64,
            Action::RightSidebarShowSearch => 65,
            Action::ThemeSetLight => 66,
            Action::ThemeSetDark => 67,
            Action::ThemeSetAuto => 68,
            Action::CursorDown => 69,
            Action::CursorUp => 70,
            Action::CursorEnter => 71,
            Action::CursorOpen => 72,
            Action::CursorCollapse => 73,
            Action::ContentNext => 74,
            Action::ContentPrev => 75,
            Action::ContentNextHeading => 76,
            Action::ContentPrevHeading => 77,
            Action::DirectoryParent => 78,
            Action::DirectoryBack => 79,
            Action::DirectoryForward => 80,
            Action::Cancel => 81,
        }
    }

    /// The action at position `i` in declaration order.
    pub open spec fn spec_at(i: int) -> Action {
        if i == 0 { Action::ScrollDown }
        else if i == 1 { Action::ScrollUp }
        else if i == 2 { Action::ScrollPageDown }
        else if i == 3 { Action::ScrollPageUp }
        else if i == 4 { Action::ScrollHalfPageDown }
        else if i == 5 { Action::ScrollHalfPageUp }
        else if i == 6 { Action::ScrollTop }
        else if i == 7 { Action::ScrollBottom }
        else if i == 8 { Action::TabNew }
        else if i == 9 { Action::TabClose }
        else if i == 10 { Action::TabCloseAll }
        else if i == 11 { Action::TabCloseOthers }
        else if i == 12 { Action::TabTogglePin }
        else if i == 13 { Action::TabOpenInNewWindow }
        else if i == 14 { Action::TabNext }
        else if i == 15 { Action::TabPrev }
        else if i == 16 { Action::HistoryBack }
        else if i == 17 { Action::HistoryForward }
        else if i == 18 { Action::SearchOpen }
        else if i == 19 { Action::SearchNext }
        else if i == 20 { Action::SearchPrev }
        else if i == 21 { Action::SearchClear }
        else if i == 22 { Action::SearchPinCurrent }
        else if i == 23 { Action::ZoomIn }
        else if i == 24 { Action::ZoomOut }
        else if i == 25 { Action::ZoomReset }
        else if i == 26 { Action::CopyFilePath }
        else if i == 27 { Action::CopyFilePathWithLine }
        else if i == 28 { Action::CopyFilePathWithRange }
        else if i == 29 { Action::CopyAsMarkdown }
        else if i == 30 { Action::CopyCode }
        else if i == 31 { Action::CopyCodeAsMarkdown }
        else if i == 32 { Action::CopyTableAsTsv }
        else if i == 33 { Action::CopyTableAsCsv }
        else if i == 34 { Action::CopyTableAsMarkdown }
        else if i == 35 { Action::CopyImage }
        else if i == 36 { Action::CopyImageWithBackground }
        else if i == 37 { Action::CopyImagePath }
        else if i == 38 { Action::CopyImageAsMarkdown }
        else if i == 39 { Action::CopyLinkPath }
        else if i == 40 { Action::WindowNew }
        else if i == 41 { Action::WindowClose }
        else if i == 42 { Action::WindowCloseAllChildWindows }
        else if i == 43 { Action::WindowCloseAllWindows }
        else if i == 44 { Action::WindowToggleSidebar }
        else if i == 45 { Action::WindowToggleRightSidebar }
        else if i == 46 { Action::WindowReload }
        else if i == 47 { Action::FocusLeftSidebar }
        else if i == 48 { Action::FocusRightSidebar }
        else if i == 49 { Action::FocusQuickAccess }
        else if i == 50 { Action::FocusContent }
        else if i == 51 { Action::FileOpen }
        else if i == 52 { Action::FileOpenDirectory }
        else if i == 53 { Action::FileSetParentAsRoot }
        else if i == 54 { Action::FileOpenLink }
        else if i == 55 { Action::FileOpenLinkInNewTab }
        else if i == 56 { Action::FileSaveImageAs }
        else if i == 57 { Action::FilePreferences }
        else if i == 58 { Action::FileRevealInFinder }
        else if i == 59 { Action::AppAbout }
        else if i == 60 { Action::AppQuit }
        else if i == 61 { Action::AppGoToHomepage }
        else if i == 62 { Action::HelpShowKeyboardShortcuts }
        else if i == 63 { Action::SidebarToggleShowAllFiles }
        else if i == 64 { Action::RightSidebarShowContents }
        else if i == 65 { Action::RightSidebarShowSearch }
        else if i == 66 { Action::ThemeSetLight }
        else if i == 67 { Action::ThemeSetDark }
        else if i == 68 { Action::ThemeSetAuto }
        else if i == 69 { Action::CursorDown }
        else if i == 70 { Action::CursorUp }
        else if i == 71 { Action::CursorEnter }
        else if i == 72 { Action::CursorOpen }
        else if i == 73 { Action::CursorCollapse }
        else if i == 74 { Action::ContentNext }
        else if i == 75 { Action::ContentPrev }
        else if i == 76 { Action::ContentNextHeading }
        else if i == 77 { Action::ContentPrevHeading }
        else if i == 78 { Action::DirectoryParent }
        else if i == 79 { Action::DirectoryBack }
        else if i == 80 { Action::DirectoryForward }
        else { Action::Cancel }
    }

    /// The action whose name has the given fingerprint.
    pub open spec fn spec_from_fingerprint(f: (char, char, char, char)) -> Action {
        if f == ('s', '\0', 'o', 'r') { Action::ScrollDown }
        else if f == ('s', '\0', '.', 's') { Action::ScrollUp }
        else if f == ('s', 'n', 'o', 'p') { Action::ScrollPageDown }
        else if f == ('s', '\0', '_', 'l') { Action::ScrollPageUp }
        else if f == ('s', 'e', 'o', 'p') { Action::ScrollHalfPageDown }
        else if f == ('s', 'e', '_', 'f') { Action::ScrollHalfPageUp }
        else if f == ('s', '\0', 't', 'c') { Action::ScrollTop }
        else if f == ('s', '\0', 't', 'l') { Action::ScrollBottom }
        else if f == ('t', '\0', 'n', '\0') { Action::TabNew }
        else if f == ('t', '\0', 'o', 't') { Action::TabClose }
        else if f == ('t', '\0', 'a', 'c') { Action::TabCloseAll }
        else if f == ('t', 's', 'e', 's') { Action::TabCloseOthers }
        else if f == ('t', '\0', 'p', 'o') { Action::TabTogglePin }
        else if f == ('t', '_', 'd', 'e') { Action::TabOpenInNewWindow }
        else if f == ('t', '\0', 'e', '\0') { Action::TabNext }
        else if f == ('t', '\0', 'r', '\0') { Action::TabPrev }
        else if f == ('h', '\0', 'a', 't') { Action::HistoryBack }
        else if f == ('h', '\0', 'a', 'y') { Action::HistoryForward }
        else if f == ('s', '\0', 'p', 'a') { Action::SearchOpen }
        else if f == ('s', '\0', 'e', 'a') { Action::SearchNext }
        else if f == ('s', '\0', 'r', 'a') { Action::SearchPrev }
        else if f == ('s', '\0', 'e', 'r') { Action::SearchClear }
        else if f == ('s', 'e', 'e', 'n') { Action::SearchPinCurrent }
        else if f == ('z', '\0', '.', '\0') { Action::ZoomIn }
        else if f == ('z', '\0', 'o', '\0') { Action::ZoomOut }
        else if f == ('z', '\0', 's', 'o') { Action::ZoomReset }
        else if f == ('c', 'f', 'a', 'f') { Action::CopyFilePath }
        else if f == ('c', 'f', 'i', 'w') { Action::CopyFilePathWithLine }
        else if f == ('c', 'f', 'n', 'i') { Action::CopyFilePathWithRange }
        else if f == ('c', 'a', 'o', '_') { Action::CopyAsMarkdown }
        else if f == ('c', 'c', 'o', 'c') { Action::CopyCode }
        else if f == ('c', 'c', 'o', '_') { Action::CopyCodeAsMarkdown }
        else if f == ('c', 't', 't', 'l') { Action::CopyTableAsTsv }
        else if f == ('c', 't', 'c', 'l') { Action::CopyTableAsCsv }
        else if f == ('c', 't', 'o', '_') { Action::CopyTableAsMarkdown }
        else if f == ('c', 'i', 'a', 'o') { Action::CopyImage }
        else if f == ('c', 'i', 'u', 'a') { Action::CopyImageWithBackground }
        else if f == ('c', 'i', 'a', 'm') { Action::CopyImagePath }
        else if f == ('c', 'i', 'o', '_') { Action::CopyImageAsMarkdown }
        else if f == ('c', 'l', 'a', 'l') { Action::CopyLinkPath }
        else if f == ('w', '\0', 'n', 'i') { Action::WindowNew }
        else if f == ('w', '\0', 'o', 'd') { Action::WindowClose }
        else if f == ('w', 'l', 'o', 'd') { Action::WindowCloseAllChildWindows }
        else if f == ('w', 'l', 'o', 'l') { Action::WindowCloseAllWindows }
        else if f == ('w', 'i', 'b', 'e') { Action::WindowToggleSidebar }
        else if f == ('w', 'i', 'b', 't') { Action::WindowToggleRightSidebar }
        else if f == ('w', '\0', 'o', 'o') { Action::WindowReload }
        else if f == ('f', 'b', 'b', 't') { Action::FocusLeftSidebar }
        else if f == ('f', 'e', 'b', 't') { Action::FocusRightSidebar }
        else if f == ('f', 'e', 'e', 'c') { Action::FocusQuickAccess }
        else if f == ('f', '\0', 'e', 's') { Action::FocusContent }
        else if f == ('f', '\0', 'p', 'f') { Action::FileOpen }
        else if f == ('f', 't', 'o', 'd') { Action::FileOpenDirectory }
        else if f == ('f', '_', 'o', 't') { Action::FileSetParentAsRoot }
        else if f == ('f', '\0', 'i', 'o') { Action::FileOpenLink }
        else if f == ('f', 'i', 't', 'n') { Action::FileOpenLinkInNewTab }
        else if f == ('f', '_', '_', '_') { Action::FileSaveImageAs }
        else if f == ('f', 's', 'c', 'e') { Action::FilePreferences }
        else if f == ('f', 'f', 'd', 'i') { Action::FileRevealInFinder }
        else if f == ('a', '\0', 'o', 'a') { Action::AppAbout }
        else if f == ('a', '\0', 'u', '\0') { Action::AppQuit }
        else if f == ('a', 'a', 'a', '_') { Action::AppGoToHomepage }
        else if f == ('h', 'a', 'u', 's') { Action::HelpShowKeyboardShortcuts }
        else if f == ('s', 's', 'l', 'a') { Action::SidebarToggleShowAllFiles }
        else if f == ('r', 'h', 'n', '_') { Action::RightSidebarShowContents }
        else if f == ('r', 'h', 'r', 'o') { Action::RightSidebarShowSearch }
        else if f == ('t', '\0', 'g', 's') { Action::ThemeSetLight }
        else if f == ('t', '\0', 'a', '.') { Action::ThemeSetDark }
        else if f == ('t', '\0', 'u', '.') { Action::ThemeSetAuto }
        else if f == ('c', '\0', 'o', 'r') { Action::CursorDown }
        else if f == ('c', '\0', '.', 'c') { Action::CursorUp }
        else if f == ('c', '\0', 't', 's') { Action::CursorEnter }
        else if f == ('c', '\0', 'p', 'r') { Action::CursorOpen }
        else if f == ('c', '\0', 'p', '.') { Action::CursorCollapse }
        else if f == ('c', '\0', 'e', 't') { Action::ContentNext }
        else if f == ('c', '\0', 'r', 't') { Action::ContentPrev }
        else if f == ('c', 'a', 'i', 't') { Action::ContentNextHeading }
        else if f == ('c', 'a', 'i', 'v') { Action::ContentPrevHeading }
        else if f == ('d', 't', 'e', 'r') { Action::DirectoryParent }
        else if f == ('d', '\0', 'a', 't') { Action::DirectoryBack }
        else if f == ('d', 'r', 'a', 'y') { Action::DirectoryForward }
        else { Action::Cancel }
    }

    /// The dot-separated name, as text.
    pub fn as_str(self) -> (s: &'static str)
        ensures
            s@ == self.spec_name(),
    {
        match self {
            Action::ScrollDown => "scroll.down",
            Action::ScrollUp => "scroll.up",
            Action::ScrollPageDown => "scroll.page_down",
            Action::ScrollPageUp => "scroll.page_up",
            Action::ScrollHalfPageDown => "scroll.half_page_down",
            Action::ScrollHalfPageUp => "scroll.half_page_up",
            Action::ScrollTop => "scroll.top",
            Action::ScrollBottom => "scroll.bottom",
            Action::TabNew => "tab.new",
            Action::TabClose => "tab.close",
            Action::TabCloseAll => "tab.close_all",
            Action::TabCloseOthers => "tab.close_others",
            Action::TabTogglePin => "tab.toggle_pin",
            Action::TabOpenInNewWindow => "tab.open_in_new_window",
            Action::TabNext => "tab.next",
            Action::TabPrev => "tab.prev",
            Action::HistoryBack => "history.back",
            Action::HistoryForward => "history.forward",
            Action::SearchOpen => "search.open",
            Action::SearchNext => "search.next",
            Action::SearchPrev => "search.prev",
            Action::SearchClear => "search.clear",
            Action::SearchPinCurrent => "search.pin_current",
            Action::ZoomIn => "zoom.in",
            Action::ZoomOut => "zoom.out",
            Action::ZoomReset => "zoom.reset",
            Action::CopyFilePath => "clipboard.copy_file_path",
            Action::CopyFilePathWithLine => "clipboard.copy_file_path_with_line",
            Action::CopyFilePathWithRange => "clipboard.copy_file_path_with_range",
            Action::CopyAsMarkdown => "clipboard.copy_as_markdown",
            Action::CopyCode => "clipboard.copy_code",
            Action::CopyCodeAsMarkdown => "clipboard.copy_code_as_markdown",
            Action::CopyTableAsTsv => "clipboard.copy_table_as_tsv",
            Action::CopyTableAsCsv => "clipboard.copy_table_as_csv",
            Action::CopyTableAsMarkdown => "clipboard.copy_table_as_markdown",
            Action::CopyImage => "clipboard.copy_image",
            Action::CopyImageWithBackground => "clipboard.copy_image_with_background",
            Action::CopyImagePath => "clipboard.copy_image_path",
            Action::CopyImageAsMarkdown => "clipboard.copy_image_as_markdown",
            Action::CopyLinkPath => "clipboard.copy_link_path",
            Action::WindowNew => "window.new",
            Action::WindowClose => "window.close",
            Action::WindowCloseAllChildWindows => "window.close_all_child_windows",
            Action::WindowCloseAllWindows => "window.close_all_windows",
            Action::WindowToggleSidebar => "window.toggle_sidebar",
            Action::WindowToggleRightSidebar => "window.toggle_right_sidebar",
            Action::WindowReload => "window.reload",
            Action::FocusLeftSidebar => "focus.left_sidebar",
            Action::FocusRightSidebar => "focus.right_sidebar",
            Action::FocusQuickAccess => "focus.quick_access",
            Action::FocusContent => "focus.content",
            Action::FileOpen => "file.open",
            Action::FileOpenDirectory => "file.open_directory",
            Action::FileSetParentAsRoot => "file.set_parent_as_root",
            Action::FileOpenLink => "file.open_link",
            Action::FileOpenLinkInNewTab => "file.open_link_in_new_tab",
            Action::FileSaveImageAs => "file.save_image_as",
            Action::FilePreferences => "file.preferences",
            Action::FileRevealInFinder => "file.reveal_in_finder",
            Action::AppAbout => "app.about",
            Action::AppQuit => "app.quit",
            Action::AppGoToHomepage => "app.go_to_homepage",
            Action::HelpShowKeyboardShortcuts => "help.show_keyboard_shortcuts",
            Action::SidebarToggleShowAllFiles => "sidebar.toggle_show_all_files",
            Action::RightSidebarShowContents => "right_sidebar.show_contents",
            Action::RightSidebarShowSearch => "right_sidebar.show_search",
            Action::ThemeSetLight => "theme.set_light",
            Action::ThemeSetDark => "theme.set_dark",
            Action::ThemeSetAuto => "theme.set_auto",
            Action::CursorDown => "cursor.down",
            Action::CursorUp => "cursor.up",
            Action::CursorEnter => "cursor.enter",
            Action::CursorOpen => "cursor.open",
            Action::CursorCollapse => "cursor.collapse",
            Action::ContentNext => "content.next",
            Action::ContentPrev => "content.prev",
            Action::ContentNextHeading => "content.next_heading",
            Action::ContentPrevHeading => "content.prev_heading",
            Action::DirectoryParent => "directory.parent",
            Action::DirectoryBack => "directory.back",
            Action::DirectoryForward => "directory.forward",
            Action::Cancel => "cancel",
        }
    }

    /// The dot-separated name, as an owned string.
    pub fn to_string(&self) -> (s: String)
        ensures
            s@ == self.spec_name(),
    {
        self.as_str().to_owned()
    }

    /// The action at position `i` in declaration order.
    pub fn at(i: usize) -> (a: Action)
        requires
            i < ACTION_COUNT,
        ensures
            a == Action::spec_at(i as int),
            a.spec_index() == i,
    {
        match i {
            0 => Action::ScrollDown,
            1 => Action::ScrollUp,
            2 => Action::ScrollPageDown,
            3 => Action::ScrollPageUp,
            4 => Action::ScrollHalfPageDown,
            5 => Action::ScrollHalfPageUp,
            6 => Action::ScrollTop,
            7 => Action::ScrollBottom,
            8 => Action::TabNew,
            9 => Action::TabClose,
            10 => Action::TabCloseAll,
            11 => Action::TabCloseOthers,
            12 => Action::TabTogglePin,
            13 => Action::TabOpenInNewWindow,
            14 => Action::TabNext,
            15 => Action::TabPrev,
            16 => Action::HistoryBack,
            17 => Action::HistoryForward,
            18 => Action::SearchOpen,
            19 => Action::SearchNext,
            20 => Action::SearchPrev,
            21 => Action::SearchClear,
            22 => Action::SearchPinCurrent,
            23 => Action::ZoomIn,
            24 => Action::ZoomOut,
            25 => Action::ZoomReset,
            26 => Action::CopyFilePath,
            27 => Action::CopyFilePathWithLine,
            28 => Action::CopyFilePathWithRange,
            29 => Action::CopyAsMarkdown,
            30 => Action::CopyCode,
            31 => Action::CopyCodeAsMarkdown,
            32 => Action::CopyTableAsTsv,
            33 => Action::CopyTableAsCsv,
            34 => Action::CopyTableAsMarkdown,
            35 => Action::CopyImage,
            36 => Action::CopyImageWithBackground,
            37 => Action::CopyImagePath,
            38 => Action::CopyImageAsMarkdown,
            39 => Action::CopyLinkPath,
            40 => Action::WindowNew,
            41 => Action::WindowClose,
            42 => Action::WindowCloseAllChildWindows,
            43 => Action::WindowCloseAllWindows,
            44 => Action::WindowToggleSidebar,
            45 => Action::WindowToggleRightSidebar,
            46 => Action::WindowReload,
            47 => Action::FocusLeftSidebar,
            48 => Action::FocusRightSidebar,
            49 => Action::FocusQuickAccess,
            50 => Action::FocusContent,
            51 => Action::FileOpen,
            52 => Action::FileOpenDirectory,
            53 => Action::FileSetParentAsRoot,
            54 => Action::FileOpenLink,
            55 => Action::FileOpenLinkInNewTab,
            56 => Action::FileSaveImageAs,
            57 => Action::FilePreferences,
            58 => Action::FileRevealInFinder,
            59 => Action::AppAbout,
            60 => Action::AppQuit,
            61 => Action::AppGoToHomepage,
            62 => Action::HelpShowKeyboardShortcuts,
            63 => Action::SidebarToggleShowAllFiles,
            64 => Action::RightSidebarShowContents,
            65 => Action::RightSidebarShowSearch,
            66 => Action::ThemeSetLight,
            67 => Action::ThemeSetDark,
            68 => Action::ThemeSetAuto,
            69 => Action::CursorDown,
            70 => Action::CursorUp,
            71 => Action::CursorEnter,
            72 => Action::CursorOpen,
            73 => Action::CursorCollapse,
            74 => Action::ContentNext,
            75 => Action::ContentPrev,
            76 => Action::ContentNextHeading,
            77 => Action::ContentPrevHeading,
            78 => Action::DirectoryParent,
            79 => Action::DirectoryBack,
            80 => Action::DirectoryForward,
            _ => Action::Cancel,
        }
    }

    /// Parse a dot-separated action name.
    ///
    /// Succeeds exactly when some action carries the name `s`, and returns that action.
    pub fn parse(s: &str) -> (r: Result<Action, ActionParseError>)
        ensures
            parse_outcome(s@, r),
    {
        let input = chars_of(s);
        let mut i: usize = 0;
        while i < ACTION_COUNT
            invariant
                input@ == s@,
                i <= ACTION_COUNT,
                forall|j: int| 0 <= j < i ==> #[trigger] Action::spec_at(j).spec_name() != s@,
            decreases ACTION_COUNT - i,
        {
            let a = Action::at(i);
            let name = chars_of(a.as_str());
            if chars_eq(input.as_slice(), name.as_slice()) {
                return Ok(a);
            }
            i += 1;
        }
        assert forall|a: Action| #[trigger] a.spec_name() != s@ by {
            lemma_action_index(a);
            assert(Action::spec_at(a.spec_index()).spec_name() != s@);
        }
        Err(ActionParseError(s.to_owned()))
    }
}

/// Parsing through the standard `FromStr` trait.
impl std::str::FromStr for Action {
    type Err = ActionParseError;

    fn from_str(s: &str) -> (r: Result<Action, ActionParseError>)
        ensures
            parse_outcome(s@, r),
    {
        Action::parse(s)
    }
}

/// Every action sits at its own index in declaration order.
pub proof fn lemma_action_index(a: Action)
    ensures
        0 <= a.spec_index() < ACTION_COUNT,
        Action::spec_at(a.spec_index()) == a,
{
}

/// Each name's fingerprint identifies its action.
proof fn lemma_action_fingerprint(a: Action)
    ensures
        Action::spec_from_fingerprint(name_fingerprint(a.spec_name())) == a,
{
    match a {
        Action::ScrollDown => { reveal_strlit("scroll.down"); }
        Action::ScrollUp => { reveal_strlit("scroll.up"); }
        Action::ScrollPageDown => { reveal_strlit("scroll.page_down"); }
        Action::ScrollPageUp => { reveal_strlit("scroll.page_up"); }
        Action::ScrollHalfPageDown => { reveal_strlit("scroll.half_page_down"); }
        Action::ScrollHalfPageUp => { reveal_strlit("scroll.half_page_up"); }
        Action::ScrollTop => { reveal_strlit("scroll.top"); }
        Action::ScrollBottom => { reveal_strlit("scroll.bottom"); }
        Action::TabNew => { reveal_strlit("tab.new"); }
        Action::TabClose => { reveal_strlit("tab.close"); }
        Action::TabCloseAll => { reveal_strlit("tab.close_all"); }
        Action::TabCloseOthers => { reveal_strlit("tab.close_others"); }
        Action::TabTogglePin => { reveal_strlit("tab.toggle_pin"); }
        Action::TabOpenInNewWindow => { reveal_strlit("tab.open_in_new_window"); }
        Action::TabNext => { reveal_strlit("tab.next"); }
        Action::TabPrev => { reveal_strlit("tab.prev"); }
        Action::HistoryBack => { reveal_strlit("history.back"); }
        Action::HistoryForward => { reveal_strlit("history.forward"); }
        Action::SearchOpen => { reveal_strlit("search.open"); }
        Action::SearchNext => { reveal_strlit("search.next"); }
        Action::SearchPrev => { reveal_strlit("search.prev"); }
        Action::SearchClear => { reveal_strlit("search.clear"); }
        Action::SearchPinCurrent => { reveal_strlit("search.pin_current"); }
        Action::ZoomIn => { reveal_strlit("zoom.in"); }
        Action::ZoomOut => { reveal_strlit("zoom.out"); }
        Action::ZoomReset => { reveal_strlit("zoom.reset"); }
        Action::CopyFilePath => { reveal_strlit("clipboard.copy_file_path"); }
        Action::CopyFilePathWithLine => { reveal_strlit("clipboard.copy_file_path_with_line"); }
        Action::CopyFilePathWithRange => { reveal_strlit("clipboard.copy_file_path_with_range"); }
        Action::CopyAsMarkdown => { reveal_strlit("clipboard.copy_as_markdown"); }
        Action::CopyCode => { reveal_strlit("clipboard.copy_code"); }
        Action::CopyCodeAsMarkdown => { reveal_strlit("clipboard.copy_code_as_markdown"); }
        Action::CopyTableAsTsv => { reveal_strlit("clipboard.copy_table_as_tsv"); }
        Action::CopyTableAsCsv => { reveal_strlit("clipboard.copy_table_as_csv"); }
        Action::CopyTableAsMarkdown => { reveal_strlit("clipboard.copy_table_as_markdown"); }
        Action::CopyImage => { reveal_strlit("clipboard.copy_image"); }
        Action::CopyImageWithBackground => { reveal_strlit("clipboard.copy_image_with_background"); }
        Action::CopyImagePath => { reveal_strlit("clipboard.copy_image_path"); }
        Action::CopyImageAsMarkdown => { reveal_strlit("clipboard.copy_image_as_markdown"); }
        Action::CopyLinkPath => { reveal_strlit("clipboard.copy_link_path"); }
        Action::WindowNew => { reveal_strlit("window.new"); }
        Action::WindowClose => { reveal_strlit("window.close"); }
        Action::WindowCloseAllChildWindows => { reveal_strlit("window.close_all_child_windows"); }
        Action::WindowCloseAllWindows => { reveal_strlit("window.close_all_windows"); }
        Action::WindowToggleSidebar => { reveal_strlit("window.toggle_sidebar"); }
        Action::WindowToggleRightSidebar => { reveal_strlit("window.toggle_right_sidebar"); }
        Action::WindowReload => { reveal_strlit("window.reload"); }
        Action::FocusLeftSidebar => { reveal_strlit("focus.left_sidebar"); }
        Action::FocusRightSidebar => { reveal_strlit("focus.right_sidebar"); }
        Action::FocusQuickAccess => { reveal_strlit("focus.quick_access"); }
        Action::FocusContent => { reveal_strlit("focus.content"); }
        Action::FileOpen => { reveal_strlit("file.open"); }
        Action::FileOpenDirectory => { reveal_strlit("file.open_directory"); }
        Action::FileSetParentAsRoot => { reveal_strlit("file.set_parent_as_root"); }
        Action::FileOpenLink => { reveal_strlit("file.open_link"); }
        Action::FileOpenLinkInNewTab => { reveal_strlit("file.open_link_in_new_tab"); }
        Action::FileSaveImageAs => { reveal_strlit("file.save_image_as"); }
        Action::FilePreferences => { reveal_strlit("file.preferences"); }
        Action::FileRevealInFinder => { reveal_strlit("file.reveal_in_finder"); }
        Action::AppAbout => { reveal_strlit("app.about"); }
        Action::AppQuit => { reveal_strlit("app.quit"); }
        Action::AppGoToHomepage => { reveal_strlit("app.go_to_homepage"); }
        Action::HelpShowKeyboardShortcuts => { reveal_strlit("help.show_keyboard_shortcuts"); }
        Action::SidebarToggleShowAllFiles => { reveal_strlit("sidebar.toggle_show_all_files"); }
        Action::RightSidebarShowContents => { reveal_strlit("right_sidebar.show_contents"); }
        Action::RightSidebarShowSearch => { reveal_strlit("right_sidebar.show_search"); }
        Action::ThemeSetLight => { reveal_strlit("theme.set_light"); }
        Action::ThemeSetDark => { reveal_strlit("theme.set_dark"); }
        Action::ThemeSetAuto => { reveal_strlit("theme.set_auto"); }
        Action::CursorDown => { reveal_strlit("cursor.down"); }
        Action::CursorUp => { reveal_strlit("cursor.up"); }
        Action::CursorEnter => { reveal_strlit("cursor.enter"); }
        Action::CursorOpen => { reveal_strlit("cursor.open"); }
        Action::CursorCollapse => { reveal_strlit("cursor.collapse"); }
        Action::ContentNext => { reveal_strlit("content.next"); }
        Action::ContentPrev => { reveal_strlit("content.prev"); }
        Action::ContentNextHeading => { reveal_strlit("content.next_heading"); }
        Action::ContentPrevHeading => { reveal_strlit("content.prev_heading"); }
        Action::DirectoryParent => { reveal_strlit("directory.parent"); }
        Action::DirectoryBack => { reveal_strlit("directory.back"); }
        Action::DirectoryForward => { reveal_strlit("directory.forward"); }
        Action::Cancel => { reveal_strlit("cancel"); }
    }
}

/// No two actions share a name.
pub proof fn lemma_action_name_injective(a: Action, b: Action)
    requires
        a.spec_name() == b.spec_name(),
    ensures
        a == b,
{
    lemma_action_fingerprint(a);
    lemma_action_fingerprint(b);
}

/// Parsing the name of an action gives back that action.
pub proof fn lemma_action_parse_name(a: Action, r: Result<Action, ActionParseError>)
    requires
        parse_outcome(a.spec_name(), r),
    ensures
        r is Ok && r->Ok_0 == a,
{
    match r {
        Ok(b) => { lemma_action_name_injective(a, b); }
        Err(e) => { assert(a.spec_name() != a.spec_name()); }
    }
}

/// Number of action groups shown in the preferences menu.
pub const ACTION_GROUP_COUNT: usize = 17;

/// Label of the `k`-th group of actions.
pub open spec fn spec_group_label(k: int) -> Seq<char> {
    if k == 0 { "Scroll"@ }
    else if k == 1 { "Tab"@ }
    else if k == 2 { "History"@ }
    else if k == 3 { "Search"@ }
    else if k == 4 { "Zoom"@ }
    else if k == 5 { "Clipboard"@ }
    else if k == 6 { "Window"@ }
    else if k == 7 { "Focus"@ }
    else if k == 8 { "File"@ }
    else if k == 9 { "App"@ }
    else if k == 10 { "Sidebar"@ }
    else if k == 11 { "Right Sidebar"@ }
    else if k == 12 { "Theme"@ }
    else if k == 13 { "Cursor"@ }
    else if k == 14 { "Content"@ }
    else if k == 15 { "Directory"@ }
    else { "Cancel"@ }
}

/// Actions of the `k`-th group.
pub open spec fn spec_group_actions(k: int) -> Seq<Action> {
    if k == 0 { seq![Action::ScrollDown, Action::ScrollUp, Action::ScrollPageDown, Action::ScrollPageUp, Action::ScrollHalfPageDown, Action::ScrollHalfPageUp, Action::ScrollTop, Action::ScrollBottom] }
    else if k == 1 { seq![Action::TabNew, Action::TabClose, Action::TabCloseAll, Action::TabCloseOthers, Action::TabTogglePin, Action::TabOpenInNewWindow, Action::TabNext, Action::TabPrev] }
    else if k == 2 { seq![Action::HistoryBack, Action::HistoryForward] }
    else if k == 3 { seq![Action::SearchOpen, Action::SearchNext, Action::SearchPrev, Action::SearchClear, Action::SearchPinCurrent] }
    else if k == 4 { seq![Action::ZoomIn, Action::ZoomOut, Action::ZoomReset] }
    else if k == 5 { seq![Action::CopyFilePath, Action::CopyFilePathWithLine, Action::CopyFilePathWithRange, Action::CopyAsMarkdown, Action::CopyCode, Action::CopyCodeAsMarkdown, Action::CopyTableAsTsv, Action::CopyTableAsCsv, Action::CopyTableAsMarkdown, Action::CopyImage, Action::CopyImageWithBackground, Action::CopyImagePath, Action::CopyImageAsMarkdown, Action::CopyLinkPath] }
    else if k == 6 { seq![Action::WindowNew, Action::WindowClose, Action::WindowCloseAllChildWindows, Action::WindowCloseAllWindows, Action::WindowToggleSidebar, Action::WindowToggleRightSidebar, Action::WindowReload] }
    else if k == 7 { seq![Action::FocusLeftSidebar, Action::FocusRightSidebar, Action::FocusQuickAccess, Action::FocusContent] }
    else if k == 8 { seq![Action::FileOpen, Action::FileOpenDirectory, Action::FileSetParentAsRoot, Action::FileOpenLink, Action::FileOpenLinkInNewTab, Action::FileSaveImageAs, Action::FilePreferences, Action::FileRevealInFinder] }
    else if k == 9 { seq![Action::AppAbout, Action::AppQuit, Action::AppGoToHomepage, Action::HelpShowKeyboardShortcuts] }
    else if k == 10 { seq![Action::SidebarToggleShowAllFiles] }
    else if k == 11 { seq![Action::RightSidebarShowContents, Action::RightSidebarShowSearch] }
    else if k == 12 { seq![Action::ThemeSetLight, Action::ThemeSetDark, Action::ThemeSetAuto] }
    else if k == 13 { seq![Action::CursorDown, Action::CursorUp, Action::CursorEnter, Action::CursorOpen, Action::CursorCollapse] }
    else if k == 14 { seq![Action::ContentNext, Action::ContentPrev, Action::ContentNextHeading, Action::ContentPrevHeading] }
    else if k == 15 { seq![Action::DirectoryParent, Action::DirectoryBack, Action::DirectoryForward] }
    else { seq![Action::Cancel] }
}

/// The action groups for the preferences dropdown: `(label, actions)`.
///
pub fn action_groups() -> (g: Vec<(&'static str, Vec<Action>)>)
    ensures
        g@.len() == ACTION_GROUP_COUNT,
        forall|k: int| 0 <= k < ACTION_GROUP_COUNT ==> (#[trigger] g@[k]).0@ == spec_group_label(k) && g@[k].1@ == spec_group_actions(k),
{
    let mut g: Vec<(&'static str, Vec<Action>)> = Vec::new();
    let mut v: Vec<Action> = Vec::new();
    v.push(Action::ScrollDown);
    v.push(Action::ScrollUp);
    v.push(Action::ScrollPageDown);
    v.push(Action::ScrollPageUp);
    v.push(Action::ScrollHalfPageDown);
    v.push(Action::ScrollHalfPageUp);
    v.push(Action::ScrollTop);
    v.push(Action::ScrollBottom);
    proof { assert(v@ =~= spec_group_actions(0)); }
    g.push(("Scroll", v));
    let mut v: Vec<Action> = Vec::new();
    v.push(Action::TabNew);
    v.push(Action::TabClose);
    v.push(Action::TabCloseAll);
    v.push(Action::TabCloseOthers);
    v.push(Action::TabTogglePin);
    v.push(Action::TabOpenInNewWindow);
    v.push(Action::TabNext);
    v.push(Action::TabPrev);
    proof { assert(v@ =~= spec_group_actions(1)); }
    g.push(("Tab", v));
    let mut v: Vec<Action> = Vec::new();
    v.push(Action::HistoryBack);
    v.push(Action::HistoryForward);
    proof { assert(v@ =~= spec_group_actions(2)); }
    g.push(("History", v));
    let mut v: Vec<Action> = Vec::new();
    v.push(Action::SearchOpen);
    v.push(Action::SearchNext);
    v.push(Action::SearchPrev);
    v.push(Action::SearchClear);
    v.push(Action::SearchPinCurrent);
    proof { assert(v@ =~= spec_group_actions(3)); }
    g.push(("Search", v));
    let mut v: Vec<Action> = Vec::new();
    v.push(Action::ZoomIn);
    v.push(Action::ZoomOut);
    v.push(Action::ZoomReset);
    proof { assert(v@ =~= spec_group_actions(4)); }
    g.push(("Zoom", v));
    let mut v: Vec<Action> = Vec::new();
    v.push(Action::CopyFilePath);
    v.push(Action::CopyFilePathWithLine);
    v.push(Action::CopyFilePathWithRange);
    v.push(Action::CopyAsMarkdown);
    v.push(Action::CopyCode);
    v.push(Action::CopyCodeAsMarkdown);
    v.push(Action::CopyTableAsTsv);
    v.push(Action::CopyTableAsCsv);
    v.push(Action::CopyTableAsMarkdown);
    v.push(Action::CopyImage);
    v.push(Action::CopyImageWithBackground);
    v.push(Action::CopyImagePath);
    v.push(Action::CopyImageAsMarkdown);
    v.push(Action::CopyLinkPath);
    proof { assert(v@ =~= spec_group_actions(5)); }
    g.push(("Clipboard", v));
    let mut v: Vec<Action> = Vec::new();
    v.push(Action::WindowNew);
    v.push(Action::WindowClose);
    v.push(Action::WindowCloseAllChildWindows);
    v.push(Action::WindowCloseAllWindows);
    v.push(Action::WindowToggleSidebar);
    v.push(Action::WindowToggleRightSidebar);
    v.push(Action::WindowReload);
    proof { assert(v@ =~= spec_group_actions(6)); }
    g.push(("Window", v));
    let mut v: Vec<Action> = Vec::new();
    v.push(Action::FocusLeftSidebar);
    v.push(Action::FocusRightSidebar);
    v.push(Action::FocusQuickAccess);
    v.push(Action::FocusContent);
    proof { assert(v@ =~= spec_group_actions(7)); }
    g.push(("Focus", v));
    let mut v: Vec<Action> = Vec::new();
    v.push(Action::FileOpen);
    v.push(Action::FileOpenDirectory);
    v.push(Action::FileSetParentAsRoot);
    v.push(Action::FileOpenLink);
    v.push(Action::FileOpenLinkInNewTab);
    v.push(Action::FileSaveImageAs);
    v.push(Action::FilePreferences);
    v.push(Action::FileRevealInFinder);
    proof { assert(v@ =~= spec_group_actions(8)); }
    g.push(("File", v));
    let mut v: Vec<Action> = Vec::new();
    v.push(Action::AppAbout);
    v.push(Action::AppQuit);
    v.push(Action::AppGoToHomepage);
    v.push(Action::HelpShowKeyboardShortcuts);
    proof { assert(v@ =~= spec_group_actions(9)); }
    g.push(("App", v));
    let mut v: Vec<Action> = Vec::new();
    v.push(Action::SidebarToggleShowAllFiles);
    proof { assert(v@ =~= spec_group_actions(10)); }
    g.push(("Sidebar", v));
    let mut v: Vec<Action> = Vec::new();
    v.push(Action::RightSidebarShowContents);
    v.push(Action::RightSidebarShowSearch);
    proof { assert(v@ =~= spec_group_actions(11)); }
    g.push(("Right Sidebar", v));
    let mut v: Vec<Action> = Vec::new();
    v.push(Action::ThemeSetLight);
    v.push(Action::ThemeSetDark);
    v.push(Action::ThemeSetAuto);
    proof { assert(v@ =~= spec_group_actions(12)); }
    g.push(("Theme", v));
    let mut v: Vec<Action> = Vec::new();
    v.push(Action::CursorDown);
    v.push(Action::CursorUp);
    v.push(Action::CursorEnter);
    v.push(Action::CursorOpen);
    v.push(Action::CursorCollapse);
    proof { assert(v@ =~= spec_group_actions(13)); }
    g.push(("Cursor", v));
    let mut v: Vec<Action> = Vec::new();
    v.push(Action::ContentNext);
    v.push(Action::ContentPrev);
    v.push(Action::ContentNextHeading);
    v.push(Action::ContentPrevHeading);
    proof { assert(v@ =~= spec_group_actions(14)); }
    g.push(("Content", v));
    let mut v: Vec<Action> = Vec::new();
    v.push(Action::DirectoryParent);
    v.push(Action::DirectoryBack);
    v.push(Action::DirectoryForward);
    proof { assert(v@ =~= spec_group_actions(15)); }
    g.push(("Directory", v));
    let mut v: Vec<Action> = Vec::new();
    v.push(Action::Cancel);
    proof { assert(v@ =~= spec_group_actions(16)); }
    g.push(("Cancel", v));
    g
}

} // verus!
