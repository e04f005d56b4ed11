//! Menu item identifiers, and the link from menu items to keyboard actions.
use vstd::prelude::*;

use crate::config::BindingSet;
use crate::keybindings::action::{char_at_or_nul, Action};
use crate::keybindings::hint::{shortcut_hint_for_global_action, spec_hint_key, spec_shortcut_hint, HintStyle};
use crate::text::{append_str, chars_eq, chars_of, string_from_chars};

verus! {

/// Menu identifier.
#[derive(Debug, Clone, Copy, PartialEq, Eq, Structural)]
pub enum MenuId {
    About,
    NewWindow,
    NewTab,
    Open,
    OpenDirectory,
    RevealInFinder,
    CopyFilePath,
    CloseTab,
    CloseAllTabs,
    CloseWindow,
    CloseAllChildWindows,
    CloseAllWindows,
    Preferences,
    Find,
    FindNext,
    FindPrevious,
    ToggleLeftSidebar,
    ToggleRightSidebar,
    ActualSize,
    ZoomIn,
    ZoomOut,
    GoBack,
    GoForward,
    GoToHomepage,
}

/// Number of menu identifiers.
pub const MENU_ID_COUNT: usize = 24;

/// Two positions that tell every menu id string apart from every other.
pub open spec fn menu_fingerprint(s: Seq<char>) -> (char, char) {
    (char_at_or_nul(s, 5), char_at_or_nul(s, s.len() - 11))
}

/// What looking up the text `s` gives: the menu id whose string is `s`, or `None`
/// when no menu item has that string.
pub open spec fn menu_lookup(s: Seq<char>, r: Option<MenuId>) -> bool {
    match r {
        Some(m) => m.spec_name() == s,
        None => forall|m: MenuId| #[trigger] m.spec_name() != s,
    }
}

impl MenuId {
    /// The string id of the menu item.
    pub open spec fn spec_name(self) -> Seq<char> {
        match self {
            MenuId::About => "app.about"@,
            MenuId::NewWindow => "file.new_window"@,
            MenuId::NewTab => "file.new_tab"@,
            MenuId::Open => "file.open"@,
            MenuId::OpenDirectory => "file.open_directory"@,
            MenuId::RevealInFinder => "file.reveal_in_finder"@,
            MenuId::CopyFilePath => "file.copy_file_path"@,
            MenuId::CloseTab => "file.close_tab"@,
            MenuId::CloseAllTabs => "file.close_all_tabs"@,
            MenuId::CloseWindow => "file.close_window"@,
            MenuId::CloseAllChildWindows => "window.close_all_child_windows"@,
            MenuId::CloseAllWindows => "window.close_all_windows"@,
            MenuId::Preferences => "app.preferences"@,
            MenuId::Find => "edit.find"@,
            MenuId::FindNext => "edit.find_next"@,
            MenuId::FindPrevious => "edit.find_previous"@,
            MenuId::ToggleLeftSidebar => "view.toggle_left_sidebar"@,
            MenuId::ToggleRightSidebar => "view.toggle_right_sidebar"@,
            MenuId::ActualSize => "view.actual_size"@,
            MenuId::ZoomIn => "view.zoom_in"@,
            MenuId::ZoomOut => "view.zoom_out"@,
            MenuId::GoBack => "history.back"@,
            MenuId::GoForward => "history.forward"@,
            MenuId::GoToHomepage => "help.homepage"@,
        }
    }

    /// Position in declaration order.
    pub open spec fn spec_index(self) -> int {
        match self {
            MenuId::About => 0,
            MenuId::NewWindow => 1,
            MenuId::NewTab => 2,
            MenuId::Open => 3,
            MenuId::OpenDirectory => 4,
            MenuId::RevealInFinder => 5,
            MenuId::CopyFilePath => 6,
            MenuId::CloseTab => 7,
            MenuId::CloseAllTabs => 8,
            MenuId::CloseWindow => 9,
            MenuId::CloseAllChildWindows => 10,
            MenuId::CloseAllWindows => 11,
            MenuId::Preferences => 12,
            MenuId::Find => 13,
            MenuId::FindNext => 14,
            MenuId::FindPrevious => 15,
            MenuId::ToggleLeftSidebar => 16,
            MenuId::ToggleRightSidebar => 17,
            MenuId::ActualSize => 18,
            MenuId::ZoomIn => 19,
            MenuId::ZoomOut => 20,
            MenuId::GoBack => 21,
            MenuId::GoForward => 22,
            MenuId::GoToHomepage => 23,
        }
    }

    /// The menu id at position `i` in declaration order.
    pub open spec fn spec_at(i: int) -> MenuId {
        if i == 0 { MenuId::About }
        else if i == 1 { MenuId::NewWindow }
        else if i == 2 { MenuId::NewTab }
        else if i == 3 { MenuId::Open }
        else if i == 4 { MenuId::OpenDirectory }
        else if i == 5 { MenuId::RevealInFinder }
        else if i == 6 { MenuId::CopyFilePath }
        else if i == 7 { MenuId::CloseTab }
        else if i == 8 { MenuId::CloseAllTabs }
        else if i == 9 { MenuId::CloseWindow }
        else if i == 10 { MenuId::CloseAllChildWindows }
        else if i == 11 { MenuId::CloseAllWindows }
        else if i == 12 { MenuId::Preferences }
        else if i == 13 { MenuId::Find }
        else if i == 14 { MenuId::FindNext }
        else if i == 15 { MenuId::FindPrevious }
        else if i == 16 { MenuId::ToggleLeftSidebar }
        else if i == 17 { MenuId::ToggleRightSidebar }
        else if i == 18 { MenuId::ActualSize }
        else if i == 19 { MenuId::ZoomIn }
        else if i == 20 { MenuId::ZoomOut }
        else if i == 21 { MenuId::GoBack }
        else if i == 22 { MenuId::GoForward }
        else { MenuId::GoToHomepage }
    }

    /// The menu id whose string has the given fingerprint.
    pub open spec fn spec_from_fingerprint(f: (char, char)) -> MenuId {
        if f == ('b', '\0') { MenuId::About }
        else if f == ('n', '.') { MenuId::NewWindow }
        else if f == ('n', 'i') { MenuId::NewTab }
        else if f == ('o', '\0') { MenuId::Open }
        else if f == ('o', 'n') { MenuId::OpenDirectory }
        else if f == ('r', 'l') { MenuId::RevealInFinder }
        else if f == ('c', 'y') { MenuId::CopyFilePath }
        else if f == ('c', 'e') { MenuId::CloseTab }
        else if f == ('c', 's') { MenuId::CloseAllTabs }
        else if f == ('c', 'l') { MenuId::CloseWindow }
        else if f == ('w', 'i') { MenuId::CloseAllChildWindows }
        else if f == ('w', 'a') { MenuId::CloseAllWindows }
        else if f == ('r', 'p') { MenuId::Preferences }
        else if f == ('f', '\0') { MenuId::Find }
        else if f == ('f', 't') { MenuId::FindNext }
        else if f == ('f', 'n') { MenuId::FindPrevious }
        else if f == ('t', 'e') { MenuId::ToggleLeftSidebar }
        else if f == ('t', 'g') { MenuId::ToggleRightSidebar }
        else if f == ('a', 'a') { MenuId::ActualSize }
        else if f == ('z', 'i') { MenuId::ZoomIn }
        else if f == ('z', 'e') { MenuId::ZoomOut }
        else if f == ('r', 'i') { MenuId::GoBack }
        else if f == ('r', 'o') { MenuId::GoForward }
        else { MenuId::GoToHomepage }
    }

    /// The keyboard action that a menu item mirrors.
    pub open spec fn spec_action(self) -> Action {
        match self {
            MenuId::About => Action::AppAbout,
            MenuId::NewWindow => Action::WindowNew,
            MenuId::NewTab => Action::TabNew,
            MenuId::Open => Action::FileOpen,
            MenuId::OpenDirectory => Action::FileOpenDirectory,
            MenuId::RevealInFinder => Action::FileRevealInFinder,
            MenuId::CopyFilePath => Action::CopyFilePath,
            MenuId::CloseTab => Action::TabClose,
            MenuId::CloseAllTabs => Action::TabCloseAll,
            MenuId::CloseWindow => Action::WindowClose,
            MenuId::CloseAllChildWindows => Action::WindowCloseAllChildWindows,
            MenuId::CloseAllWindows => Action::WindowCloseAllWindows,
            MenuId::Preferences => Action::FilePreferences,
            MenuId::Find => Action::SearchOpen,
            MenuId::FindNext => Action::SearchNext,
            MenuId::FindPrevious => Action::SearchPrev,
            MenuId::ToggleLeftSidebar => Action::WindowToggleSidebar,
            MenuId::ToggleRightSidebar => Action::WindowToggleRightSidebar,
            MenuId::ActualSize => Action::ZoomReset,
            MenuId::ZoomIn => Action::ZoomIn,
            MenuId::ZoomOut => Action::ZoomOut,
            MenuId::GoBack => Action::HistoryBack,
            MenuId::GoForward => Action::HistoryForward,
            MenuId::GoToHomepage => Action::AppGoToHomepage,
        }
    }

    /// The menu id at position `i` in declaration order.
    pub fn at(i: usize) -> (m: MenuId)
        requires
            i < MENU_ID_COUNT,
        ensures
            m == MenuId::spec_at(i as int),
            m.spec_index() == i,
    {
        match i {
            0 => MenuId::About,
            1 => MenuId::NewWindow,
            2 => MenuId::NewTab,
            3 => MenuId::Open,
            4 => MenuId::OpenDirectory,
            5 => MenuId::RevealInFinder,
            6 => MenuId::CopyFilePath,
            7 => MenuId::CloseTab,
            8 => MenuId::CloseAllTabs,
            9 => MenuId::CloseWindow,
            10 => MenuId::CloseAllChildWindows,
            11 => MenuId::CloseAllWindows,
            12 => MenuId::Preferences,
            13 => MenuId::Find,
            14 => MenuId::FindNext,
            15 => MenuId::FindPrevious,
            16 => MenuId::ToggleLeftSidebar,
            17 => MenuId::ToggleRightSidebar,
            18 => MenuId::ActualSize,
            19 => MenuId::ZoomIn,
            20 => MenuId::ZoomOut,
            21 => MenuId::GoBack,
            22 => MenuId::GoForward,
            _ => MenuId::GoToHomepage,
        }
    }

    /// Convert a menu id string to its variant; `None` when no menu item has that id.
    pub fn from_str(s: &str) -> (r: Option<MenuId>)
        ensures
            menu_lookup(s@, r),
    {
        let input = chars_of(s);
        let mut i: usize = 0;
        while i < MENU_ID_COUNT
            invariant
                input@ == s@,
                i <= MENU_ID_COUNT,
                forall|j: int| 0 <= j < i ==> #[trigger] MenuId::spec_at(j).spec_name() != s@,
            decreases MENU_ID_COUNT - i,
        {
            let m = MenuId::at(i);
            let name = chars_of(m.as_str());
            if chars_eq(input.as_slice(), name.as_slice()) {
                return Some(m);
            }
            i += 1;
        }
        assert forall|m: MenuId| #[trigger] m.spec_name() != s@ by {
            lemma_menu_id_index(m);
            assert(MenuId::spec_at(m.spec_index()).spec_name() != s@);
        }
        None
    }

    /// The string id of this menu item.
    pub fn as_str(self) -> (s: &'static str)
        ensures
            s@ == self.spec_name(),
    {
        match self {
            MenuId::About => "app.about",
            MenuId::NewWindow => "file.new_window",
            MenuId::NewTab => "file.new_tab",
            MenuId::Open => "file.open",
            MenuId::OpenDirectory => "file.open_directory",
            MenuId::RevealInFinder => "file.reveal_in_finder",
            MenuId::CopyFilePath => "file.copy_file_path",
            MenuId::CloseTab => "file.close_tab",
            MenuId::CloseAllTabs => "file.close_all_tabs",
            MenuId::CloseWindow => "file.close_window",
            MenuId::CloseAllChildWindows => "window.close_all_child_windows",
            MenuId::CloseAllWindows => "window.close_all_windows",
            MenuId::Preferences => "app.preferences",
            MenuId::Find => "edit.find",
            MenuId::FindNext => "edit.find_next",
            MenuId::FindPrevious => "edit.find_previous",
            MenuId::ToggleLeftSidebar => "view.toggle_left_sidebar",
            MenuId::ToggleRightSidebar => "view.toggle_right_sidebar",
            MenuId::ActualSize => "view.actual_size",
            MenuId::ZoomIn => "view.zoom_in",
            MenuId::ZoomOut => "view.zoom_out",
            MenuId::GoBack => "history.back",
            MenuId::GoForward => "history.forward",
            MenuId::GoToHomepage => "help.homepage",
        }
    }
}

/// Every menu id sits at its own index in declaration order.
pub proof fn lemma_menu_id_index(m: MenuId)
    ensures
        0 <= m.spec_index() < MENU_ID_COUNT,
        MenuId::spec_at(m.spec_index()) == m,
{
}

/// Each menu id string's fingerprint identifies its menu item.
proof fn lemma_menu_id_fingerprint(m: MenuId)
    ensures
        MenuId::spec_from_fingerprint(menu_fingerprint(m.spec_name())) == m,
{
    match m {
        MenuId::About => { reveal_strlit("app.about"); }
        MenuId::NewWindow => { reveal_strlit("file.new_window"); }
        MenuId::NewTab => { reveal_strlit("file.new_tab"); }
        MenuId::Open => { reveal_strlit("file.open"); }
        MenuId::OpenDirectory => { reveal_strlit("file.open_directory"); }
        MenuId::RevealInFinder => { reveal_strlit("file.reveal_in_finder"); }
        MenuId::CopyFilePath => { reveal_strlit("file.copy_file_path"); }
        MenuId::CloseTab => { reveal_strlit("file.close_tab"); }
        MenuId::CloseAllTabs => { reveal_strlit("file.close_all_tabs"); }
        MenuId::CloseWindow => { reveal_strlit("file.close_window"); }
        MenuId::CloseAllChildWindows => { reveal_strlit("window.close_all_child_windows"); }
        MenuId::CloseAllWindows => { reveal_strlit("window.close_all_windows"); }
        MenuId::Preferences => { reveal_strlit("app.preferences"); }
        MenuId::Find => { reveal_strlit("edit.find"); }
        MenuId::FindNext => { reveal_strlit("edit.find_next"); }
        MenuId::FindPrevious => { reveal_strlit("edit.find_previous"); }
        MenuId::ToggleLeftSidebar => { reveal_strlit("view.toggle_left_sidebar"); }
        MenuId::ToggleRightSidebar => { reveal_strlit("view.toggle_right_sidebar"); }
        MenuId::ActualSize => { reveal_strlit("view.actual_size"); }
        MenuId::ZoomIn => { reveal_strlit("view.zoom_in"); }
        MenuId::ZoomOut => { reveal_strlit("view.zoom_out"); }
        MenuId::GoBack => { reveal_strlit("history.back"); }
        MenuId::GoForward => { reveal_strlit("history.forward"); }
        MenuId::GoToHomepage => { reveal_strlit("help.homepage"); }
    }
}

/// No two menu items share a string id.
pub proof fn lemma_menu_id_name_injective(a: MenuId, b: MenuId)
    requires
        a.spec_name() == b.spec_name(),
    ensures
        a == b,
{
    lemma_menu_id_fingerprint(a);
    lemma_menu_id_fingerprint(b);
}

/// Converting a menu id to its string and back gives the same menu id.
pub proof fn lemma_menu_id_roundtrip(m: MenuId, r: Option<MenuId>)
    requires
        menu_lookup(m.spec_name(), r),
    ensures
        r == Some(m),
{
    match r {
        Some(x) => { lemma_menu_id_name_injective(x, m); }
        None => { assert(m.spec_name() != m.spec_name()); }
    }
}

/// Map a menu item to the name of the keyboard action it mirrors, for hint display.
pub fn menu_action_for_id(id: MenuId) -> (r: Option<&'static str>)
    ensures
        r is Some && r->Some_0@ == id.spec_action().spec_name(),
{
    Some(match id {
        MenuId::About => "app.about",
        MenuId::NewWindow => "window.new",
        MenuId::NewTab => "tab.new",
        MenuId::Open => "file.open",
        MenuId::OpenDirectory => "file.open_directory",
        MenuId::RevealInFinder => "file.reveal_in_finder",
        MenuId::CopyFilePath => "clipboard.copy_file_path",
        MenuId::CloseTab => "tab.close",
        MenuId::CloseAllTabs => "tab.close_all",
        MenuId::CloseWindow => "window.close",
        MenuId::CloseAllChildWindows => "window.close_all_child_windows",
        MenuId::CloseAllWindows => "window.close_all_windows",
        MenuId::Preferences => "file.preferences",
        MenuId::Find => "search.open",
        MenuId::FindNext => "search.next",
        MenuId::FindPrevious => "search.prev",
        MenuId::ToggleLeftSidebar => "window.toggle_sidebar",
        MenuId::ToggleRightSidebar => "window.toggle_right_sidebar",
        MenuId::ActualSize => "zoom.reset",
        MenuId::ZoomIn => "zoom.in",
        MenuId::ZoomOut => "zoom.out",
        MenuId::GoBack => "history.back",
        MenuId::GoForward => "history.forward",
        MenuId::GoToHomepage => "app.go_to_homepage",
    })
}

/// The label shown for a menu item: the base label, then a tab and the shortcut hint
/// of the mirrored action when the global bindings give it a key.
pub open spec fn spec_menu_label(bindings: &BindingSet, id: MenuId, base_label: Seq<char>, style: HintStyle) -> Seq<char> {
    match spec_hint_key(bindings, id.spec_action().spec_name(), None) {
        Some(k) => base_label + seq!['\t'] + spec_shortcut_hint(k, style),
        None => base_label,
    }
}

/// Build a menu label with a tab-separated shortcut hint.
pub fn menu_label_with_shortcut(bindings: &BindingSet, id: MenuId, base_label: &str, style: HintStyle) -> (r: String)
    ensures
        r@ == spec_menu_label(bindings, id, base_label@, style),
{
    let action = match menu_action_for_id(id) {
        Some(a) => a,
        None => { return base_label.to_owned(); }
    };
    let shortcut = match shortcut_hint_for_global_action(bindings, action, style) {
        Some(h) => h,
        None => { return base_label.to_owned(); }
    };
    let mut out: Vec<char> = Vec::new();
    append_str(&mut out, base_label);
    out.push('\t');
    append_str(&mut out, shortcut.as_str());
    string_from_chars(out.as_slice())
}

/// Whether a menu event id closes a tab or a window.
pub fn is_close_menu_id(id: &str) -> (r: bool)
    ensures
        r == (id@ == MenuId::CloseTab.spec_name() || id@ == MenuId::CloseWindow.spec_name()),
{
    let r = MenuId::from_str(id);
    proof {
        if let Some(m) = r {
            if id@ == MenuId::CloseTab.spec_name() {
                lemma_menu_id_name_injective(m, MenuId::CloseTab);
            }
            if id@ == MenuId::CloseWindow.spec_name() {
                lemma_menu_id_name_injective(m, MenuId::CloseWindow);
            }
        }
    }
    match r {
        Some(MenuId::CloseTab) => true,
        Some(MenuId::CloseWindow) => true,
        _ => false,
    }
}

} // verus!
