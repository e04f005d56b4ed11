//! The default preset: Browser-style shortcuts built on the Command key.
use vstd::prelude::*;

use crate::config::{key_action_views, BindingSet, KeyAction, KeyActionView};
use crate::keybindings::action::Action;
use crate::keybindings::presets::{spec_field_valid, spec_parse_action, spec_preset_valid};
use crate::keybindings::shortcut::{
    lemma_chord_key, lemma_chord_mod, lemma_modifier_names, lemma_shortcut_cons, lemma_shortcut_single,
    spec_parse_shortcut, ChordView,
};

verus! {

/// Entries of the `global` list.
pub open spec fn spec_global() -> Seq<KeyActionView> {
    seq![("Cmd+n"@, "window.new"@), ("Cmd+Shift+n"@, "window.close_all_child_windows"@), ("Cmd+t"@, "tab.new"@), ("Cmd+w"@, "tab.close"@), ("Cmd+Shift+w"@, "window.close"@), ("Cmd+Alt+w"@, "window.close_all_windows"@), ("Cmd+o"@, "file.open"@), ("Cmd+Shift+o"@, "file.open_directory"@), ("Cmd+Comma"@, "file.preferences"@), ("Cmd+Shift+r"@, "file.reveal_in_finder"@), ("Cmd+Shift+c"@, "clipboard.copy_file_path"@), ("Cmd+f"@, "search.open"@), ("Cmd+g"@, "search.next"@), ("Cmd+Shift+g"@, "search.prev"@), ("Cmd+Shift+p"@, "search.pin_current"@), ("Cmd+Equal"@, "zoom.in"@), ("Cmd+Minus"@, "zoom.out"@), ("Cmd+0"@, "zoom.reset"@), ("Cmd+BracketLeft"@, "history.back"@), ("Cmd+BracketRight"@, "history.forward"@), ("Ctrl+Tab"@, "tab.next"@), ("Ctrl+Shift+Tab"@, "tab.prev"@), ("Cmd+Shift+b"@, "window.toggle_sidebar"@), ("Cmd+Alt+b"@, "window.toggle_right_sidebar"@), ("Cmd+r"@, "window.reload"@), ("Cmd+q"@, "app.quit"@), ("Cmd+Slash"@, "help.show_keyboard_shortcuts"@), ("ArrowDown"@, "scroll.down"@), ("ArrowUp"@, "scroll.up"@), ("PageDown"@, "scroll.page_down"@), ("PageUp"@, "scroll.page_up"@), ("Home"@, "scroll.top"@), ("End"@, "scroll.bottom"@), ("Escape"@, "cancel"@)]
}

/// Entries of the `content` list.
pub open spec fn spec_content() -> Seq<KeyActionView> {
    Seq::empty()
}

/// Entries of the `sidebar` list.
pub open spec fn spec_sidebar() -> Seq<KeyActionView> {
    seq![("ArrowDown"@, "cursor.down"@), ("ArrowUp"@, "cursor.up"@), ("Enter"@, "cursor.enter"@), ("ArrowLeft"@, "cursor.collapse"@)]
}

/// Entries of the `quick_access` list.
pub open spec fn spec_quick_access() -> Seq<KeyActionView> {
    Seq::empty()
}

/// Entries of the `right_sidebar` list.
pub open spec fn spec_right_sidebar() -> Seq<KeyActionView> {
    Seq::empty()
}

/// Entries of the `search` list.
pub open spec fn spec_search() -> Seq<KeyActionView> {
    seq![("Enter"@, "search.next"@), ("Shift+Enter"@, "search.prev"@)]
}

/// Whether a binding set holds exactly the entries of this preset.
pub open spec fn is_preset(b: BindingSet) -> bool {
    key_action_views(b.global@) == spec_global()
        && key_action_views(b.content@) == spec_content()
        && key_action_views(b.sidebar@) == spec_sidebar()
        && key_action_views(b.quick_access@) == spec_quick_access()
        && key_action_views(b.right_sidebar@) == spec_right_sidebar()
        && key_action_views(b.search@) == spec_search()
}

fn global_entries() -> (v: Vec<KeyAction>)
    ensures
        key_action_views(v@) == spec_global(),
{
    let mut v: Vec<KeyAction> = Vec::new();
    v.push(KeyAction::new("Cmd+n", "window.new"));
    v.push(KeyAction::new("Cmd+Shift+n", "window.close_all_child_windows"));
    v.push(KeyAction::new("Cmd+t", "tab.new"));
    v.push(KeyAction::new("Cmd+w", "tab.close"));
    v.push(KeyAction::new("Cmd+Shift+w", "window.close"));
    v.push(KeyAction::new("Cmd+Alt+w", "window.close_all_windows"));
    v.push(KeyAction::new("Cmd+o", "file.open"));
    v.push(KeyAction::new("Cmd+Shift+o", "file.open_directory"));
    v.push(KeyAction::new("Cmd+Comma", "file.preferences"));
    v.push(KeyAction::new("Cmd+Shift+r", "file.reveal_in_finder"));
    v.push(KeyAction::new("Cmd+Shift+c", "clipboard.copy_file_path"));
    v.push(KeyAction::new("Cmd+f", "search.open"));
    v.push(KeyAction::new("Cmd+g", "search.next"));
    v.push(KeyAction::new("Cmd+Shift+g", "search.prev"));
    v.push(KeyAction::new("Cmd+Shift+p", "search.pin_current"));
    v.push(KeyAction::new("Cmd+Equal", "zoom.in"));
    v.push(KeyAction::new("Cmd+Minus", "zoom.out"));
    v.push(KeyAction::new("Cmd+0", "zoom.reset"));
    v.push(KeyAction::new("Cmd+BracketLeft", "history.back"));
    v.push(KeyAction::new("Cmd+BracketRight", "history.forward"));
    v.push(KeyAction::new("Ctrl+Tab", "tab.next"));
    v.push(KeyAction::new("Ctrl+Shift+Tab", "tab.prev"));
    v.push(KeyAction::new("Cmd+Shift+b", "window.toggle_sidebar"));
    v.push(KeyAction::new("Cmd+Alt+b", "window.toggle_right_sidebar"));
    v.push(KeyAction::new("Cmd+r", "window.reload"));
    v.push(KeyAction::new("Cmd+q", "app.quit"));
    v.push(KeyAction::new("Cmd+Slash", "help.show_keyboard_shortcuts"));
    v.push(KeyAction::new("ArrowDown", "scroll.down"));
    v.push(KeyAction::new("ArrowUp", "scroll.up"));
    v.push(KeyAction::new("PageDown", "scroll.page_down"));
    v.push(KeyAction::new("PageUp", "scroll.page_up"));
    v.push(KeyAction::new("Home", "scroll.top"));
    v.push(KeyAction::new("End", "scroll.bottom"));
    v.push(KeyAction::new("Escape", "cancel"));
    assert(key_action_views(v@) =~= spec_global());
    v
}

fn content_entries() -> (v: Vec<KeyAction>)
    ensures
        key_action_views(v@) == spec_content(),
{
    let mut v: Vec<KeyAction> = Vec::new();
    assert(key_action_views(v@) =~= spec_content());
    v
}

fn sidebar_entries() -> (v: Vec<KeyAction>)
    ensures
        key_action_views(v@) == spec_sidebar(),
{
    let mut v: Vec<KeyAction> = Vec::new();
    v.push(KeyAction::new("ArrowDown", "cursor.down"));
    v.push(KeyAction::new("ArrowUp", "cursor.up"));
    v.push(KeyAction::new("Enter", "cursor.enter"));
    v.push(KeyAction::new("ArrowLeft", "cursor.collapse"));
    assert(key_action_views(v@) =~= spec_sidebar());
    v
}

fn quick_access_entries() -> (v: Vec<KeyAction>)
    ensures
        key_action_views(v@) == spec_quick_access(),
{
    let mut v: Vec<KeyAction> = Vec::new();
    assert(key_action_views(v@) =~= spec_quick_access());
    v
}

fn right_sidebar_entries() -> (v: Vec<KeyAction>)
    ensures
        key_action_views(v@) == spec_right_sidebar(),
{
    let mut v: Vec<KeyAction> = Vec::new();
    assert(key_action_views(v@) =~= spec_right_sidebar());
    v
}

fn search_entries() -> (v: Vec<KeyAction>)
    ensures
        key_action_views(v@) == spec_search(),
{
    let mut v: Vec<KeyAction> = Vec::new();
    v.push(KeyAction::new("Enter", "search.next"));
    v.push(KeyAction::new("Shift+Enter", "search.prev"));
    assert(key_action_views(v@) =~= spec_search());
    v
}

/// The bindings of this preset.
pub fn bindings() -> (b: BindingSet)
    ensures
        is_preset(b),
{
    BindingSet {
        global: global_entries(),
        content: content_entries(),
        sidebar: sidebar_entries(),
        quick_access: quick_access_entries(),
        right_sidebar: right_sidebar_entries(),
        search: search_entries(),
    }
}

/// The preset is valid: every key names a shortcut, every action is known, and no list
/// holds the same shortcut twice.
pub proof fn lemma_preset_valid(b: BindingSet)
    requires
        is_preset(b),
    ensures
        spec_preset_valid(&b),
{
    lemma_global_valid();
    lemma_content_valid();
    lemma_sidebar_valid();
    lemma_quick_access_valid();
    lemma_right_sidebar_valid();
    lemma_search_valid();
}

/// `Cmd+n` denotes its chords.
proof fn lemma_global_key_0()
    ensures
        spec_parse_shortcut("Cmd+n"@) == Some(seq![(false, false, false, true, "n"@)]),
{
    lemma_modifier_names();
    reveal_strlit("Cmd");
    reveal_strlit("Cmd+n");
    reveal_strlit("n");
    lemma_chord_key("n"@);
    assert("Cmd+n"@ =~= "Cmd"@ + seq!['+'] + "n"@);
    lemma_chord_mod("Cmd"@, "n"@);
    lemma_shortcut_single("Cmd+n"@);
}

/// `Cmd+Shift+n` denotes its chords.
proof fn lemma_global_key_1()
    ensures
        spec_parse_shortcut("Cmd+Shift+n"@) == Some(seq![(false, false, true, true, "n"@)]),
{
    lemma_modifier_names();
    reveal_strlit("Cmd");
    reveal_strlit("Cmd+Shift+n");
    reveal_strlit("Shift");
    reveal_strlit("Shift+n");
    reveal_strlit("n");
    lemma_chord_key("n"@);
    assert("Shift+n"@ =~= "Shift"@ + seq!['+'] + "n"@);
    lemma_chord_mod("Shift"@, "n"@);
    assert("Cmd+Shift+n"@ =~= "Cmd"@ + seq!['+'] + "Shift+n"@);
    lemma_chord_mod("Cmd"@, "Shift+n"@);
    lemma_shortcut_single("Cmd+Shift+n"@);
}

/// `Cmd+t` denotes its chords.
proof fn lemma_global_key_2()
    ensures
        spec_parse_shortcut("Cmd+t"@) == Some(seq![(false, false, false, true, "t"@)]),
{
    lemma_modifier_names();
    reveal_strlit("Cmd");
    reveal_strlit("Cmd+t");
    reveal_strlit("t");
    lemma_chord_key("t"@);
    assert("Cmd+t"@ =~= "Cmd"@ + seq!['+'] + "t"@);
    lemma_chord_mod("Cmd"@, "t"@);
    lemma_shortcut_single("Cmd+t"@);
}

/// `Cmd+w` denotes its chords.
proof fn lemma_global_key_3()
    ensures
        spec_parse_shortcut("Cmd+w"@) == Some(seq![(false, false, false, true, "w"@)]),
{
    lemma_modifier_names();
    reveal_strlit("Cmd");
    reveal_strlit("Cmd+w");
    reveal_strlit("w");
    lemma_chord_key("w"@);
    assert("Cmd+w"@ =~= "Cmd"@ + seq!['+'] + "w"@);
    lemma_chord_mod("Cmd"@, "w"@);
    lemma_shortcut_single("Cmd+w"@);
}

/// `Cmd+Shift+w` denotes its chords.
proof fn lemma_global_key_4()
    ensures
        spec_parse_shortcut("Cmd+Shift+w"@) == Some(seq![(false, false, true, true, "w"@)]),
{
    lemma_modifier_names();
    reveal_strlit("Cmd");
    reveal_strlit("Cmd+Shift+w");
    reveal_strlit("Shift");
    reveal_strlit("Shift+w");
    reveal_strlit("w");
    lemma_chord_key("w"@);
    assert("Shift+w"@ =~= "Shift"@ + seq!['+'] + "w"@);
    lemma_chord_mod("Shift"@, "w"@);
    assert("Cmd+Shift+w"@ =~= "Cmd"@ + seq!['+'] + "Shift+w"@);
    lemma_chord_mod("Cmd"@, "Shift+w"@);
    lemma_shortcut_single("Cmd+Shift+w"@);
}

/// `Cmd+Alt+w` denotes its chords.
proof fn lemma_global_key_5()
    ensures
        spec_parse_shortcut("Cmd+Alt+w"@) == Some(seq![(false, true, false, true, "w"@)]),
{
    lemma_modifier_names();
    reveal_strlit("Alt");
    reveal_strlit("Alt+w");
    reveal_strlit("Cmd");
    reveal_strlit("Cmd+Alt+w");
    reveal_strlit("w");
    lemma_chord_key("w"@);
    assert("Alt+w"@ =~= "Alt"@ + seq!['+'] + "w"@);
    lemma_chord_mod("Alt"@, "w"@);
    assert("Cmd+Alt+w"@ =~= "Cmd"@ + seq!['+'] + "Alt+w"@);
    lemma_chord_mod("Cmd"@, "Alt+w"@);
    lemma_shortcut_single("Cmd+Alt+w"@);
}

/// `Cmd+o` denotes its chords.
proof fn lemma_global_key_6()
    ensures
        spec_parse_shortcut("Cmd+o"@) == Some(seq![(false, false, false, true, "o"@)]),
{
    lemma_modifier_names();
    reveal_strlit("Cmd");
    reveal_strlit("Cmd+o");
    reveal_strlit("o");
    lemma_chord_key("o"@);
    assert("Cmd+o"@ =~= "Cmd"@ + seq!['+'] + "o"@);
    lemma_chord_mod("Cmd"@, "o"@);
    lemma_shortcut_single("Cmd+o"@);
}

/// `Cmd+Shift+o` denotes its chords.
proof fn lemma_global_key_7()
    ensures
        spec_parse_shortcut("Cmd+Shift+o"@) == Some(seq![(false, false, true, true, "o"@)]),
{
    lemma_modifier_names();
    reveal_strlit("Cmd");
    reveal_strlit("Cmd+Shift+o");
    reveal_strlit("Shift");
    reveal_strlit("Shift+o");
    reveal_strlit("o");
    lemma_chord_key("o"@);
    assert("Shift+o"@ =~= "Shift"@ + seq!['+'] + "o"@);
    lemma_chord_mod("Shift"@, "o"@);
    assert("Cmd+Shift+o"@ =~= "Cmd"@ + seq!['+'] + "Shift+o"@);
    lemma_chord_mod("Cmd"@, "Shift+o"@);
    lemma_shortcut_single("Cmd+Shift+o"@);
}

/// `Cmd+Comma` denotes its chords.
proof fn lemma_global_key_8()
    ensures
        spec_parse_shortcut("Cmd+Comma"@) == Some(seq![(false, false, false, true, "Comma"@)]),
{
    lemma_modifier_names();
    reveal_strlit("Cmd");
    reveal_strlit("Cmd+Comma");
    reveal_strlit("Comma");
    lemma_chord_key("Comma"@);
    assert("Cmd+Comma"@ =~= "Cmd"@ + seq!['+'] + "Comma"@);
    lemma_chord_mod("Cmd"@, "Comma"@);
    lemma_shortcut_single("Cmd+Comma"@);
}

/// `Cmd+Shift+r` denotes its chords.
proof fn lemma_global_key_9()
    ensures
        spec_parse_shortcut("Cmd+Shift+r"@) == Some(seq![(false, false, true, true, "r"@)]),
{
    lemma_modifier_names();
    reveal_strlit("Cmd");
    reveal_strlit("Cmd+Shift+r");
    reveal_strlit("Shift");
    reveal_strlit("Shift+r");
    reveal_strlit("r");
    lemma_chord_key("r"@);
    assert("Shift+r"@ =~= "Shift"@ + seq!['+'] + "r"@);
    lemma_chord_mod("Shift"@, "r"@);
    assert("Cmd+Shift+r"@ =~= "Cmd"@ + seq!['+'] + "Shift+r"@);
    lemma_chord_mod("Cmd"@, "Shift+r"@);
    lemma_shortcut_single("Cmd+Shift+r"@);
}

/// `Cmd+Shift+c` denotes its chords.
proof fn lemma_global_key_10()
    ensures
        spec_parse_shortcut("Cmd+Shift+c"@) == Some(seq![(false, false, true, true, "c"@)]),
{
    lemma_modifier_names();
    reveal_strlit("Cmd");
    reveal_strlit("Cmd+Shift+c");
    reveal_strlit("Shift");
    reveal_strlit("Shift+c");
    reveal_strlit("c");
    lemma_chord_key("c"@);
    assert("Shift+c"@ =~= "Shift"@ + seq!['+'] + "c"@);
    lemma_chord_mod("Shift"@, "c"@);
    assert("Cmd+Shift+c"@ =~= "Cmd"@ + seq!['+'] + "Shift+c"@);
    lemma_chord_mod("Cmd"@, "Shift+c"@);
    lemma_shortcut_single("Cmd+Shift+c"@);
}

/// `Cmd+f` denotes its chords.
proof fn lemma_global_key_11()
    ensures
        spec_parse_shortcut("Cmd+f"@) == Some(seq![(false, false, false, true, "f"@)]),
{
    lemma_modifier_names();
    reveal_strlit("Cmd");
    reveal_strlit("Cmd+f");
    reveal_strlit("f");
    lemma_chord_key("f"@);
    assert("Cmd+f"@ =~= "Cmd"@ + seq!['+'] + "f"@);
    lemma_chord_mod("Cmd"@, "f"@);
    lemma_shortcut_single("Cmd+f"@);
}

/// `Cmd+g` denotes its chords.
proof fn lemma_global_key_12()
    ensures
        spec_parse_shortcut("Cmd+g"@) == Some(seq![(false, false, false, true, "g"@)]),
{
    lemma_modifier_names();
    reveal_strlit("Cmd");
    reveal_strlit("Cmd+g");
    reveal_strlit("g");
    lemma_chord_key("g"@);
    assert("Cmd+g"@ =~= "Cmd"@ + seq!['+'] + "g"@);
    lemma_chord_mod("Cmd"@, "g"@);
    lemma_shortcut_single("Cmd+g"@);
}

/// `Cmd+Shift+g` denotes its chords.
proof fn lemma_global_key_13()
    ensures
        spec_parse_shortcut("Cmd+Shift+g"@) == Some(seq![(false, false, true, true, "g"@)]),
{
    lemma_modifier_names();
    reveal_strlit("Cmd");
    reveal_strlit("Cmd+Shift+g");
    reveal_strlit("Shift");
    reveal_strlit("Shift+g");
    reveal_strlit("g");
    lemma_chord_key("g"@);
    assert("Shift+g"@ =~= "Shift"@ + seq!['+'] + "g"@);
    lemma_chord_mod("Shift"@, "g"@);
    assert("Cmd+Shift+g"@ =~= "Cmd"@ + seq!['+'] + "Shift+g"@);
    lemma_chord_mod("Cmd"@, "Shift+g"@);
    lemma_shortcut_single("Cmd+Shift+g"@);
}

/// `Cmd+Shift+p` denotes its chords.
proof fn lemma_global_key_14()
    ensures
        spec_parse_shortcut("Cmd+Shift+p"@) == Some(seq![(false, false, true, true, "p"@)]),
{
    lemma_modifier_names();
    reveal_strlit("Cmd");
    reveal_strlit("Cmd+Shift+p");
    reveal_strlit("Shift");
    reveal_strlit("Shift+p");
    reveal_strlit("p");
    lemma_chord_key("p"@);
    assert("Shift+p"@ =~= "Shift"@ + seq!['+'] + "p"@);
    lemma_chord_mod("Shift"@, "p"@);
    assert("Cmd+Shift+p"@ =~= "Cmd"@ + seq!['+'] + "Shift+p"@);
    lemma_chord_mod("Cmd"@, "Shift+p"@);
    lemma_shortcut_single("Cmd+Shift+p"@);
}

/// `Cmd+Equal` denotes its chords.
proof fn lemma_global_key_15()
    ensures
        spec_parse_shortcut("Cmd+Equal"@) == Some(seq![(false, false, false, true, "Equal"@)]),
{
    lemma_modifier_names();
    reveal_strlit("Cmd");
    reveal_strlit("Cmd+Equal");
    reveal_strlit("Equal");
    lemma_chord_key("Equal"@);
    assert("Cmd+Equal"@ =~= "Cmd"@ + seq!['+'] + "Equal"@);
    lemma_chord_mod("Cmd"@, "Equal"@);
    lemma_shortcut_single("Cmd+Equal"@);
}

/// `Cmd+Minus` denotes its chords.
proof fn lemma_global_key_16()
    ensures
        spec_parse_shortcut("Cmd+Minus"@) == Some(seq![(false, false, false, true, "Minus"@)]),
{
    lemma_modifier_names();
    reveal_strlit("Cmd");
    reveal_strlit("Cmd+Minus");
    reveal_strlit("Minus");
    lemma_chord_key("Minus"@);
    assert("Cmd+Minus"@ =~= "Cmd"@ + seq!['+'] + "Minus"@);
    lemma_chord_mod("Cmd"@, "Minus"@);
    lemma_shortcut_single("Cmd+Minus"@);
}

/// `Cmd+0` denotes its chords.
proof fn lemma_global_key_17()
    ensures
        spec_parse_shortcut("Cmd+0"@) == Some(seq![(false, false, false, true, "0"@)]),
{
    lemma_modifier_names();
    reveal_strlit("0");
    reveal_strlit("Cmd");
    reveal_strlit("Cmd+0");
    lemma_chord_key("0"@);
    assert("Cmd+0"@ =~= "Cmd"@ + seq!['+'] + "0"@);
    lemma_chord_mod("Cmd"@, "0"@);
    lemma_shortcut_single("Cmd+0"@);
}

/// `Cmd+BracketLeft` denotes its chords.
proof fn lemma_global_key_18()
    ensures
        spec_parse_shortcut("Cmd+BracketLeft"@) == Some(seq![(false, false, false, true, "BracketLeft"@)]),
{
    lemma_modifier_names();
    reveal_strlit("BracketLeft");
    reveal_strlit("Cmd");
    reveal_strlit("Cmd+BracketLeft");
    lemma_chord_key("BracketLeft"@);
    assert("Cmd+BracketLeft"@ =~= "Cmd"@ + seq!['+'] + "BracketLeft"@);
    lemma_chord_mod("Cmd"@, "BracketLeft"@);
    lemma_shortcut_single("Cmd+BracketLeft"@);
}

/// `Cmd+BracketRight` denotes its chords.
proof fn lemma_global_key_19()
    ensures
        spec_parse_shortcut("Cmd+BracketRight"@) == Some(seq![(false, false, false, true, "BracketRight"@)]),
{
    lemma_modifier_names();
    reveal_strlit("BracketRight");
    reveal_strlit("Cmd");
    reveal_strlit("Cmd+BracketRight");
    lemma_chord_key("BracketRight"@);
    assert("Cmd+BracketRight"@ =~= "Cmd"@ + seq!['+'] + "BracketRight"@);
    lemma_chord_mod("Cmd"@, "BracketRight"@);
    lemma_shortcut_single("Cmd+BracketRight"@);
}

/// `Ctrl+Tab` denotes its chords.
proof fn lemma_global_key_20()
    ensures
        spec_parse_shortcut("Ctrl+Tab"@) == Some(seq![(true, false, false, false, "Tab"@)]),
{
    lemma_modifier_names();
    reveal_strlit("Ctrl");
    reveal_strlit("Ctrl+Tab");
    reveal_strlit("Tab");
    lemma_chord_key("Tab"@);
    assert("Ctrl+Tab"@ =~= "Ctrl"@ + seq!['+'] + "Tab"@);
    lemma_chord_mod("Ctrl"@, "Tab"@);
    lemma_shortcut_single("Ctrl+Tab"@);
}

/// `Ctrl+Shift+Tab` denotes its chords.
proof fn lemma_global_key_21()
    ensures
        spec_parse_shortcut("Ctrl+Shift+Tab"@) == Some(seq![(true, false, true, false, "Tab"@)]),
{
    lemma_modifier_names();
    reveal_strlit("Ctrl");
    reveal_strlit("Ctrl+Shift+Tab");
    reveal_strlit("Shift");
    reveal_strlit("Shift+Tab");
    reveal_strlit("Tab");
    lemma_chord_key("Tab"@);
    assert("Shift+Tab"@ =~= "Shift"@ + seq!['+'] + "Tab"@);
    lemma_chord_mod("Shift"@, "Tab"@);
    assert("Ctrl+Shift+Tab"@ =~= "Ctrl"@ + seq!['+'] + "Shift+Tab"@);
    lemma_chord_mod("Ctrl"@, "Shift+Tab"@);
    lemma_shortcut_single("Ctrl+Shift+Tab"@);
}

/// `Cmd+Shift+b` denotes its chords.
proof fn lemma_global_key_22()
    ensures
        spec_parse_shortcut("Cmd+Shift+b"@) == Some(seq![(false, false, true, true, "b"@)]),
{
    lemma_modifier_names();
    reveal_strlit("Cmd");
    reveal_strlit("Cmd+Shift+b");
    reveal_strlit("Shift");
    reveal_strlit("Shift+b");
    reveal_strlit("b");
    lemma_chord_key("b"@);
    assert("Shift+b"@ =~= "Shift"@ + seq!['+'] + "b"@);
    lemma_chord_mod("Shift"@, "b"@);
    assert("Cmd+Shift+b"@ =~= "Cmd"@ + seq!['+'] + "Shift+b"@);
    lemma_chord_mod("Cmd"@, "Shift+b"@);
    lemma_shortcut_single("Cmd+Shift+b"@);
}

/// `Cmd+Alt+b` denotes its chords.
proof fn lemma_global_key_23()
    ensures
        spec_parse_shortcut("Cmd+Alt+b"@) == Some(seq![(false, true, false, true, "b"@)]),
{
    lemma_modifier_names();
    reveal_strlit("Alt");
    reveal_strlit("Alt+b");
    reveal_strlit("Cmd");
    reveal_strlit("Cmd+Alt+b");
    reveal_strlit("b");
    lemma_chord_key("b"@);
    assert("Alt+b"@ =~= "Alt"@ + seq!['+'] + "b"@);
    lemma_chord_mod("Alt"@, "b"@);
    assert("Cmd+Alt+b"@ =~= "Cmd"@ + seq!['+'] + "Alt+b"@);
    lemma_chord_mod("Cmd"@, "Alt+b"@);
    lemma_shortcut_single("Cmd+Alt+b"@);
}

/// `Cmd+r` denotes its chords.
proof fn lemma_global_key_24()
    ensures
        spec_parse_shortcut("Cmd+r"@) == Some(seq![(false, false, false, true, "r"@)]),
{
    lemma_modifier_names();
    reveal_strlit("Cmd");
    reveal_strlit("Cmd+r");
    reveal_strlit("r");
    lemma_chord_key("r"@);
    assert("Cmd+r"@ =~= "Cmd"@ + seq!['+'] + "r"@);
    lemma_chord_mod("Cmd"@, "r"@);
    lemma_shortcut_single("Cmd+r"@);
}

/// `Cmd+q` denotes its chords.
proof fn lemma_global_key_25()
    ensures
        spec_parse_shortcut("Cmd+q"@) == Some(seq![(false, false, false, true, "q"@)]),
{
    lemma_modifier_names();
    reveal_strlit("Cmd");
    reveal_strlit("Cmd+q");
    reveal_strlit("q");
    lemma_chord_key("q"@);
    assert("Cmd+q"@ =~= "Cmd"@ + seq!['+'] + "q"@);
    lemma_chord_mod("Cmd"@, "q"@);
    lemma_shortcut_single("Cmd+q"@);
}

/// `Cmd+Slash` denotes its chords.
proof fn lemma_global_key_26()
    ensures
        spec_parse_shortcut("Cmd+Slash"@) == Some(seq![(false, false, false, true, "Slash"@)]),
{
    lemma_modifier_names();
    reveal_strlit("Cmd");
    reveal_strlit("Cmd+Slash");
    reveal_strlit("Slash");
    lemma_chord_key("Slash"@);
    assert("Cmd+Slash"@ =~= "Cmd"@ + seq!['+'] + "Slash"@);
    lemma_chord_mod("Cmd"@, "Slash"@);
    lemma_shortcut_single("Cmd+Slash"@);
}

/// `ArrowDown` denotes its chords.
proof fn lemma_global_key_27()
    ensures
        spec_parse_shortcut("ArrowDown"@) == Some(seq![(false, false, false, false, "ArrowDown"@)]),
{
    lemma_modifier_names();
    reveal_strlit("ArrowDown");
    lemma_chord_key("ArrowDown"@);
    lemma_shortcut_single("ArrowDown"@);
}

/// `ArrowUp` denotes its chords.
proof fn lemma_global_key_28()
    ensures
        spec_parse_shortcut("ArrowUp"@) == Some(seq![(false, false, false, false, "ArrowUp"@)]),
{
    lemma_modifier_names();
    reveal_strlit("ArrowUp");
    lemma_chord_key("ArrowUp"@);
    lemma_shortcut_single("ArrowUp"@);
}

/// `PageDown` denotes its chords.
proof fn lemma_global_key_29()
    ensures
        spec_parse_shortcut("PageDown"@) == Some(seq![(false, false, false, false, "PageDown"@)]),
{
    lemma_modifier_names();
    reveal_strlit("PageDown");
    lemma_chord_key("PageDown"@);
    lemma_shortcut_single("PageDown"@);
}

/// `PageUp` denotes its chords.
proof fn lemma_global_key_30()
    ensures
        spec_parse_shortcut("PageUp"@) == Some(seq![(false, false, false, false, "PageUp"@)]),
{
    lemma_modifier_names();
    reveal_strlit("PageUp");
    lemma_chord_key("PageUp"@);
    lemma_shortcut_single("PageUp"@);
}

/// `Home` denotes its chords.
proof fn lemma_global_key_31()
    ensures
        spec_parse_shortcut("Home"@) == Some(seq![(false, false, false, false, "Home"@)]),
{
    lemma_modifier_names();
    reveal_strlit("Home");
    lemma_chord_key("Home"@);
    lemma_shortcut_single("Home"@);
}

/// `End` denotes its chords.
proof fn lemma_global_key_32()
    ensures
        spec_parse_shortcut("End"@) == Some(seq![(false, false, false, false, "End"@)]),
{
    lemma_modifier_names();
    reveal_strlit("End");
    lemma_chord_key("End"@);
    lemma_shortcut_single("End"@);
}

/// `Escape` denotes its chords.
proof fn lemma_global_key_33()
    ensures
        spec_parse_shortcut("Escape"@) == Some(seq![(false, false, false, false, "Escape"@)]),
{
    lemma_modifier_names();
    reveal_strlit("Escape");
    lemma_chord_key("Escape"@);
    lemma_shortcut_single("Escape"@);
}

/// Every entry of the `global` list names a shortcut and a known action, and no two
/// entries denote the same shortcut.
#[verifier::spinoff_prover]
proof fn lemma_global_valid()
    ensures
        spec_field_valid(spec_global()),
{
    lemma_global_key_0();
    lemma_global_key_1();
    lemma_global_key_2();
    lemma_global_key_3();
    lemma_global_key_4();
    lemma_global_key_5();
    lemma_global_key_6();
    lemma_global_key_7();
    lemma_global_key_8();
    lemma_global_key_9();
    lemma_global_key_10();
    lemma_global_key_11();
    lemma_global_key_12();
    lemma_global_key_13();
    lemma_global_key_14();
    lemma_global_key_15();
    lemma_global_key_16();
    lemma_global_key_17();
    lemma_global_key_18();
    lemma_global_key_19();
    lemma_global_key_20();
    lemma_global_key_21();
    lemma_global_key_22();
    lemma_global_key_23();
    lemma_global_key_24();
    lemma_global_key_25();
    lemma_global_key_26();
    lemma_global_key_27();
    lemma_global_key_28();
    lemma_global_key_29();
    lemma_global_key_30();
    lemma_global_key_31();
    lemma_global_key_32();
    lemma_global_key_33();
    assert(Action::AppQuit.spec_name() == "app.quit"@);
    assert(Action::Cancel.spec_name() == "cancel"@);
    assert(Action::CopyFilePath.spec_name() == "clipboard.copy_file_path"@);
    assert(Action::FileOpen.spec_name() == "file.open"@);
    assert(Action::FileOpenDirectory.spec_name() == "file.open_directory"@);
    assert(Action::FilePreferences.spec_name() == "file.preferences"@);
    assert(Action::FileRevealInFinder.spec_name() == "file.reveal_in_finder"@);
    assert(Action::HelpShowKeyboardShortcuts.spec_name() == "help.show_keyboard_shortcuts"@);
    assert(Action::HistoryBack.spec_name() == "history.back"@);
    assert(Action::HistoryForward.spec_name() == "history.forward"@);
    assert(Action::ScrollBottom.spec_name() == "scroll.bottom"@);
    assert(Action::ScrollDown.spec_name() == "scroll.down"@);
    assert(Action::ScrollPageDown.spec_name() == "scroll.page_down"@);
    assert(Action::ScrollPageUp.spec_name() == "scroll.page_up"@);
    assert(Action::ScrollTop.spec_name() == "scroll.top"@);
    assert(Action::ScrollUp.spec_name() == "scroll.up"@);
    assert(Action::SearchNext.spec_name() == "search.next"@);
    assert(Action::SearchOpen.spec_name() == "search.open"@);
    assert(Action::SearchPinCurrent.spec_name() == "search.pin_current"@);
    assert(Action::SearchPrev.spec_name() == "search.prev"@);
    assert(Action::TabClose.spec_name() == "tab.close"@);
    assert(Action::TabNew.spec_name() == "tab.new"@);
    assert(Action::TabNext.spec_name() == "tab.next"@);
    assert(Action::TabPrev.spec_name() == "tab.prev"@);
    assert(Action::WindowClose.spec_name() == "window.close"@);
    assert(Action::WindowCloseAllChildWindows.spec_name() == "window.close_all_child_windows"@);
    assert(Action::WindowCloseAllWindows.spec_name() == "window.close_all_windows"@);
    assert(Action::WindowNew.spec_name() == "window.new"@);
    assert(Action::WindowReload.spec_name() == "window.reload"@);
    assert(Action::WindowToggleRightSidebar.spec_name() == "window.toggle_right_sidebar"@);
    assert(Action::WindowToggleSidebar.spec_name() == "window.toggle_sidebar"@);
    assert(Action::ZoomIn.spec_name() == "zoom.in"@);
    assert(Action::ZoomOut.spec_name() == "zoom.out"@);
    assert(Action::ZoomReset.spec_name() == "zoom.reset"@);
    let kas = spec_global();
    let vals: Seq<Option<Seq<ChordView>>> = seq![
        Some(seq![(false, false, false, true, "n"@)]),
        Some(seq![(false, false, true, true, "n"@)]),
        Some(seq![(false, false, false, true, "t"@)]),
        Some(seq![(false, false, false, true, "w"@)]),
        Some(seq![(false, false, true, true, "w"@)]),
        Some(seq![(false, true, false, true, "w"@)]),
        Some(seq![(false, false, false, true, "o"@)]),
        Some(seq![(false, false, true, true, "o"@)]),
        Some(seq![(false, false, false, true, "Comma"@)]),
        Some(seq![(false, false, true, true, "r"@)]),
        Some(seq![(false, false, true, true, "c"@)]),
        Some(seq![(false, false, false, true, "f"@)]),
        Some(seq![(false, false, false, true, "g"@)]),
        Some(seq![(false, false, true, true, "g"@)]),
        Some(seq![(false, false, true, true, "p"@)]),
        Some(seq![(false, false, false, true, "Equal"@)]),
        Some(seq![(false, false, false, true, "Minus"@)]),
        Some(seq![(false, false, false, true, "0"@)]),
        Some(seq![(false, false, false, true, "BracketLeft"@)]),
        Some(seq![(false, false, false, true, "BracketRight"@)]),
        Some(seq![(true, false, false, false, "Tab"@)]),
        Some(seq![(true, false, true, false, "Tab"@)]),
        Some(seq![(false, false, true, true, "b"@)]),
        Some(seq![(false, true, false, true, "b"@)]),
        Some(seq![(false, false, false, true, "r"@)]),
        Some(seq![(false, false, false, true, "q"@)]),
        Some(seq![(false, false, false, true, "Slash"@)]),
        Some(seq![(false, false, false, false, "ArrowDown"@)]),
        Some(seq![(false, false, false, false, "ArrowUp"@)]),
        Some(seq![(false, false, false, false, "PageDown"@)]),
        Some(seq![(false, false, false, false, "PageUp"@)]),
        Some(seq![(false, false, false, false, "Home"@)]),
        Some(seq![(false, false, false, false, "End"@)]),
        Some(seq![(false, false, false, false, "Escape"@)]),
    ];
    assert forall|i: int| 0 <= i < kas.len() implies #[trigger] spec_parse_shortcut(kas[i].0) == vals[i]
        && (#[trigger] spec_parse_action(kas[i].1)) is Some by {
        if i == 0 {
            assert(kas[0] == ("Cmd+n"@, "window.new"@));
        } else if i == 1 {
            assert(kas[1] == ("Cmd+Shift+n"@, "window.close_all_child_windows"@));
        } else if i == 2 {
            assert(kas[2] == ("Cmd+t"@, "tab.new"@));
        } else if i == 3 {
            assert(kas[3] == ("Cmd+w"@, "tab.close"@));
        } else if i == 4 {
            assert(kas[4] == ("Cmd+Shift+w"@, "window.close"@));
        } else if i == 5 {
            assert(kas[5] == ("Cmd+Alt+w"@, "window.close_all_windows"@));
        } else if i == 6 {
            assert(kas[6] == ("Cmd+o"@, "file.open"@));
        } else if i == 7 {
            assert(kas[7] == ("Cmd+Shift+o"@, "file.open_directory"@));
        } else if i == 8 {
            assert(kas[8] == ("Cmd+Comma"@, "file.preferences"@));
        } else if i == 9 {
            assert(kas[9] == ("Cmd+Shift+r"@, "file.reveal_in_finder"@));
        } else if i == 10 {
            assert(kas[10] == ("Cmd+Shift+c"@, "clipboard.copy_file_path"@));
        } else if i == 11 {
            assert(kas[11] == ("Cmd+f"@, "search.open"@));
        } else if i == 12 {
            assert(kas[12] == ("Cmd+g"@, "search.next"@));
        } else if i == 13 {
            assert(kas[13] == ("Cmd+Shift+g"@, "search.prev"@));
        } else if i == 14 {
            assert(kas[14] == ("Cmd+Shift+p"@, "search.pin_current"@));
        } else if i == 15 {
            assert(kas[15] == ("Cmd+Equal"@, "zoom.in"@));
        } else if i == 16 {
            assert(kas[16] == ("Cmd+Minus"@, "zoom.out"@));
        } else if i == 17 {
            assert(kas[17] == ("Cmd+0"@, "zoom.reset"@));
        } else if i == 18 {
            assert(kas[18] == ("Cmd+BracketLeft"@, "history.back"@));
        } else if i == 19 {
            assert(kas[19] == ("Cmd+BracketRight"@, "history.forward"@));
        } else if i == 20 {
            assert(kas[20] == ("Ctrl+Tab"@, "tab.next"@));
        } else if i == 21 {
            assert(kas[21] == ("Ctrl+Shift+Tab"@, "tab.prev"@));
        } else if i == 22 {
            assert(kas[22] == ("Cmd+Shift+b"@, "window.toggle_sidebar"@));
        } else if i == 23 {
            assert(kas[23] == ("Cmd+Alt+b"@, "window.toggle_right_sidebar"@));
        } else if i == 24 {
            assert(kas[24] == ("Cmd+r"@, "window.reload"@));
        } else if i == 25 {
            assert(kas[25] == ("Cmd+q"@, "app.quit"@));
        } else if i == 26 {
            assert(kas[26] == ("Cmd+Slash"@, "help.show_keyboard_shortcuts"@));
        } else if i == 27 {
            assert(kas[27] == ("ArrowDown"@, "scroll.down"@));
        } else if i == 28 {
            assert(kas[28] == ("ArrowUp"@, "scroll.up"@));
        } else if i == 29 {
            assert(kas[29] == ("PageDown"@, "scroll.page_down"@));
        } else if i == 30 {
            assert(kas[30] == ("PageUp"@, "scroll.page_up"@));
        } else if i == 31 {
            assert(kas[31] == ("Home"@, "scroll.top"@));
        } else if i == 32 {
            assert(kas[32] == ("End"@, "scroll.bottom"@));
        } else if i == 33 {
            assert(kas[33] == ("Escape"@, "cancel"@));
        }
    }
    reveal_strlit("0");
    reveal_strlit("ArrowDown");
    reveal_strlit("ArrowUp");
    reveal_strlit("BracketLeft");
    reveal_strlit("BracketRight");
    reveal_strlit("Comma");
    reveal_strlit("End");
    reveal_strlit("Equal");
    reveal_strlit("Escape");
    reveal_strlit("Home");
    reveal_strlit("Minus");
    reveal_strlit("PageDown");
    reveal_strlit("PageUp");
    reveal_strlit("Slash");
    reveal_strlit("Tab");
    reveal_strlit("b");
    reveal_strlit("c");
    reveal_strlit("f");
    reveal_strlit("g");
    reveal_strlit("n");
    reveal_strlit("o");
    reveal_strlit("p");
    reveal_strlit("q");
    reveal_strlit("r");
    reveal_strlit("t");
    reveal_strlit("w");
    assert(vals[0]->Some_0[0].2 != vals[1]->Some_0[0].2);
    assert(vals[0]->Some_0[0].4[0] != vals[2]->Some_0[0].4[0]);
    assert(vals[0]->Some_0[0].4[0] != vals[3]->Some_0[0].4[0]);
    assert(vals[0]->Some_0[0].2 != vals[4]->Some_0[0].2);
    assert(vals[0]->Some_0[0].1 != vals[5]->Some_0[0].1);
    assert(vals[0]->Some_0[0].4[0] != vals[6]->Some_0[0].4[0]);
    assert(vals[0]->Some_0[0].2 != vals[7]->Some_0[0].2);
    assert(vals[0]->Some_0[0].4.len() != vals[8]->Some_0[0].4.len());
    assert(vals[0]->Some_0[0].2 != vals[9]->Some_0[0].2);
    assert(vals[0]->Some_0[0].2 != vals[10]->Some_0[0].2);
    assert(vals[0]->Some_0[0].4[0] != vals[11]->Some_0[0].4[0]);
    assert(vals[0]->Some_0[0].4[0] != vals[12]->Some_0[0].4[0]);
    assert(vals[0]->Some_0[0].2 != vals[13]->Some_0[0].2);
    assert(vals[0]->Some_0[0].2 != vals[14]->Some_0[0].2);
    assert(vals[0]->Some_0[0].4.len() != vals[15]->Some_0[0].4.len());
    assert(vals[0]->Some_0[0].4.len() != vals[16]->Some_0[0].4.len());
    assert(vals[0]->Some_0[0].4[0] != vals[17]->Some_0[0].4[0]);
    assert(vals[0]->Some_0[0].4.len() != vals[18]->Some_0[0].4.len());
    assert(vals[0]->Some_0[0].4.len() != vals[19]->Some_0[0].4.len());
    assert(vals[0]->Some_0[0].0 != vals[20]->Some_0[0].0);
    assert(vals[0]->Some_0[0].0 != vals[21]->Some_0[0].0);
    assert(vals[0]->Some_0[0].2 != vals[22]->Some_0[0].2);
    assert(vals[0]->Some_0[0].1 != vals[23]->Some_0[0].1);
    assert(vals[0]->Some_0[0].4[0] != vals[24]->Some_0[0].4[0]);
    assert(vals[0]->Some_0[0].4[0] != vals[25]->Some_0[0].4[0]);
    assert(vals[0]->Some_0[0].4.len() != vals[26]->Some_0[0].4.len());
    assert(vals[0]->Some_0[0].3 != vals[27]->Some_0[0].3);
    assert(vals[0]->Some_0[0].3 != vals[28]->Some_0[0].3);
    assert(vals[0]->Some_0[0].3 != vals[29]->Some_0[0].3);
    assert(vals[0]->Some_0[0].3 != vals[30]->Some_0[0].3);
    assert(vals[0]->Some_0[0].3 != vals[31]->Some_0[0].3);
    assert(vals[0]->Some_0[0].3 != vals[32]->Some_0[0].3);
    assert(vals[0]->Some_0[0].3 != vals[33]->Some_0[0].3);
    assert(vals[1]->Some_0[0].2 != vals[2]->Some_0[0].2);
    assert(vals[1]->Some_0[0].2 != vals[3]->Some_0[0].2);
    assert(vals[1]->Some_0[0].4[0] != vals[4]->Some_0[0].4[0]);
    assert(vals[1]->Some_0[0].1 != vals[5]->Some_0[0].1);
    assert(vals[1]->Some_0[0].2 != vals[6]->Some_0[0].2);
    assert(vals[1]->Some_0[0].4[0] != vals[7]->Some_0[0].4[0]);
    assert(vals[1]->Some_0[0].2 != vals[8]->Some_0[0].2);
    assert(vals[1]->Some_0[0].4[0] != vals[9]->Some_0[0].4[0]);
    assert(vals[1]->Some_0[0].4[0] != vals[10]->Some_0[0].4[0]);
    assert(vals[1]->Some_0[0].2 != vals[11]->Some_0[0].2);
    assert(vals[1]->Some_0[0].2 != vals[12]->Some_0[0].2);
    assert(vals[1]->Some_0[0].4[0] != vals[13]->Some_0[0].4[0]);
    assert(vals[1]->Some_0[0].4[0] != vals[14]->Some_0[0].4[0]);
    assert(vals[1]->Some_0[0].2 != vals[15]->Some_0[0].2);
    assert(vals[1]->Some_0[0].2 != vals[16]->Some_0[0].2);
    assert(vals[1]->Some_0[0].2 != vals[17]->Some_0[0].2);
    assert(vals[1]->Some_0[0].2 != vals[18]->Some_0[0].2);
    assert(vals[1]->Some_0[0].2 != vals[19]->Some_0[0].2);
    assert(vals[1]->Some_0[0].0 != vals[20]->Some_0[0].0);
    assert(vals[1]->Some_0[0].0 != vals[21]->Some_0[0].0);
    assert(vals[1]->Some_0[0].4[0] != vals[22]->Some_0[0].4[0]);
    assert(vals[1]->Some_0[0].1 != vals[23]->Some_0[0].1);
    assert(vals[1]->Some_0[0].2 != vals[24]->Some_0[0].2);
    assert(vals[1]->Some_0[0].2 != vals[25]->Some_0[0].2);
    assert(vals[1]->Some_0[0].2 != vals[26]->Some_0[0].2);
    assert(vals[1]->Some_0[0].2 != vals[27]->Some_0[0].2);
    assert(vals[1]->Some_0[0].2 != vals[28]->Some_0[0].2);
    assert(vals[1]->Some_0[0].2 != vals[29]->Some_0[0].2);
    assert(vals[1]->Some_0[0].2 != vals[30]->Some_0[0].2);
    assert(vals[1]->Some_0[0].2 != vals[31]->Some_0[0].2);
    assert(vals[1]->Some_0[0].2 != vals[32]->Some_0[0].2);
    assert(vals[1]->Some_0[0].2 != vals[33]->Some_0[0].2);
    assert(vals[2]->Some_0[0].4[0] != vals[3]->Some_0[0].4[0]);
    assert(vals[2]->Some_0[0].2 != vals[4]->Some_0[0].2);
    assert(vals[2]->Some_0[0].1 != vals[5]->Some_0[0].1);
    assert(vals[2]->Some_0[0].4[0] != vals[6]->Some_0[0].4[0]);
    assert(vals[2]->Some_0[0].2 != vals[7]->Some_0[0].2);
    assert(vals[2]->Some_0[0].4.len() != vals[8]->Some_0[0].4.len());
    assert(vals[2]->Some_0[0].2 != vals[9]->Some_0[0].2);
    assert(vals[2]->Some_0[0].2 != vals[10]->Some_0[0].2);
    assert(vals[2]->Some_0[0].4[0] != vals[11]->Some_0[0].4[0]);
    assert(vals[2]->Some_0[0].4[0] != vals[12]->Some_0[0].4[0]);
    assert(vals[2]->Some_0[0].2 != vals[13]->Some_0[0].2);
    assert(vals[2]->Some_0[0].2 != vals[14]->Some_0[0].2);
    assert(vals[2]->Some_0[0].4.len() != vals[15]->Some_0[0].4.len());
    assert(vals[2]->Some_0[0].4.len() != vals[16]->Some_0[0].4.len());
    assert(vals[2]->Some_0[0].4[0] != vals[17]->Some_0[0].4[0]);
    assert(vals[2]->Some_0[0].4.len() != vals[18]->Some_0[0].4.len());
    assert(vals[2]->Some_0[0].4.len() != vals[19]->Some_0[0].4.len());
    assert(vals[2]->Some_0[0].0 != vals[20]->Some_0[0].0);
    assert(vals[2]->Some_0[0].0 != vals[21]->Some_0[0].0);
    assert(vals[2]->Some_0[0].2 != vals[22]->Some_0[0].2);
    assert(vals[2]->Some_0[0].1 != vals[23]->Some_0[0].1);
    assert(vals[2]->Some_0[0].4[0] != vals[24]->Some_0[0].4[0]);
    assert(vals[2]->Some_0[0].4[0] != vals[25]->Some_0[0].4[0]);
    assert(vals[2]->Some_0[0].4.len() != vals[26]->Some_0[0].4.len());
    assert(vals[2]->Some_0[0].3 != vals[27]->Some_0[0].3);
    assert(vals[2]->Some_0[0].3 != vals[28]->Some_0[0].3);
    assert(vals[2]->Some_0[0].3 != vals[29]->Some_0[0].3);
    assert(vals[2]->Some_0[0].3 != vals[30]->Some_0[0].3);
    assert(vals[2]->Some_0[0].3 != vals[31]->Some_0[0].3);
    assert(vals[2]->Some_0[0].3 != vals[32]->Some_0[0].3);
    assert(vals[2]->Some_0[0].3 != vals[33]->Some_0[0].3);
    assert(vals[3]->Some_0[0].2 != vals[4]->Some_0[0].2);
    assert(vals[3]->Some_0[0].1 != vals[5]->Some_0[0].1);
    assert(vals[3]->Some_0[0].4[0] != vals[6]->Some_0[0].4[0]);
    assert(vals[3]->Some_0[0].2 != vals[7]->Some_0[0].2);
    assert(vals[3]->Some_0[0].4.len() != vals[8]->Some_0[0].4.len());
    assert(vals[3]->Some_0[0].2 != vals[9]->Some_0[0].2);
    assert(vals[3]->Some_0[0].2 != vals[10]->Some_0[0].2);
    assert(vals[3]->Some_0[0].4[0] != vals[11]->Some_0[0].4[0]);
    assert(vals[3]->Some_0[0].4[0] != vals[12]->Some_0[0].4[0]);
    assert(vals[3]->Some_0[0].2 != vals[13]->Some_0[0].2);
    assert(vals[3]->Some_0[0].2 != vals[14]->Some_0[0].2);
    assert(vals[3]->Some_0[0].4.len() != vals[15]->Some_0[0].4.len());
    assert(vals[3]->Some_0[0].4.len() != vals[16]->Some_0[0].4.len());
    assert(vals[3]->Some_0[0].4[0] != vals[17]->Some_0[0].4[0]);
    assert(vals[3]->Some_0[0].4.len() != vals[18]->Some_0[0].4.len());
    assert(vals[3]->Some_0[0].4.len() != vals[19]->Some_0[0].4.len());
    assert(vals[3]->Some_0[0].0 != vals[20]->Some_0[0].0);
    assert(vals[3]->Some_0[0].0 != vals[21]->Some_0[0].0);
    assert(vals[3]->Some_0[0].2 != vals[22]->Some_0[0].2);
    assert(vals[3]->Some_0[0].1 != vals[23]->Some_0[0].1);
    assert(vals[3]->Some_0[0].4[0] != vals[24]->Some_0[0].4[0]);
    assert(vals[3]->Some_0[0].4[0] != vals[25]->Some_0[0].4[0]);
    assert(vals[3]->Some_0[0].4.len() != vals[26]->Some_0[0].4.len());
    assert(vals[3]->Some_0[0].3 != vals[27]->Some_0[0].3);
    assert(vals[3]->Some_0[0].3 != vals[28]->Some_0[0].3);
    assert(vals[3]->Some_0[0].3 != vals[29]->Some_0[0].3);
    assert(vals[3]->Some_0[0].3 != vals[30]->Some_0[0].3);
    assert(vals[3]->Some_0[0].3 != vals[31]->Some_0[0].3);
    assert(vals[3]->Some_0[0].3 != vals[32]->Some_0[0].3);
    assert(vals[3]->Some_0[0].3 != vals[33]->Some_0[0].3);
    assert(vals[4]->Some_0[0].1 != vals[5]->Some_0[0].1);
    assert(vals[4]->Some_0[0].2 != vals[6]->Some_0[0].2);
    assert(vals[4]->Some_0[0].4[0] != vals[7]->Some_0[0].4[0]);
    assert(vals[4]->Some_0[0].2 != vals[8]->Some_0[0].2);
    assert(vals[4]->Some_0[0].4[0] != vals[9]->Some_0[0].4[0]);
    assert(vals[4]->Some_0[0].4[0] != vals[10]->Some_0[0].4[0]);
    assert(vals[4]->Some_0[0].2 != vals[11]->Some_0[0].2);
    assert(vals[4]->Some_0[0].2 != vals[12]->Some_0[0].2);
    assert(vals[4]->Some_0[0].4[0] != vals[13]->Some_0[0].4[0]);
    assert(vals[4]->Some_0[0].4[0] != vals[14]->Some_0[0].4[0]);
    assert(vals[4]->Some_0[0].2 != vals[15]->Some_0[0].2);
    assert(vals[4]->Some_0[0].2 != vals[16]->Some_0[0].2);
    assert(vals[4]->Some_0[0].2 != vals[17]->Some_0[0].2);
    assert(vals[4]->Some_0[0].2 != vals[18]->Some_0[0].2);
    assert(vals[4]->Some_0[0].2 != vals[19]->Some_0[0].2);
    assert(vals[4]->Some_0[0].0 != vals[20]->Some_0[0].0);
    assert(vals[4]->Some_0[0].0 != vals[21]->Some_0[0].0);
    assert(vals[4]->Some_0[0].4[0] != vals[22]->Some_0[0].4[0]);
    assert(vals[4]->Some_0[0].1 != vals[23]->Some_0[0].1);
    assert(vals[4]->Some_0[0].2 != vals[24]->Some_0[0].2);
    assert(vals[4]->Some_0[0].2 != vals[25]->Some_0[0].2);
    assert(vals[4]->Some_0[0].2 != vals[26]->Some_0[0].2);
    assert(vals[4]->Some_0[0].2 != vals[27]->Some_0[0].2);
    assert(vals[4]->Some_0[0].2 != vals[28]->Some_0[0].2);
    assert(vals[4]->Some_0[0].2 != vals[29]->Some_0[0].2);
    assert(vals[4]->Some_0[0].2 != vals[30]->Some_0[0].2);
    assert(vals[4]->Some_0[0].2 != vals[31]->Some_0[0].2);
    assert(vals[4]->Some_0[0].2 != vals[32]->Some_0[0].2);
    assert(vals[4]->Some_0[0].2 != vals[33]->Some_0[0].2);
    assert(vals[5]->Some_0[0].1 != vals[6]->Some_0[0].1);
    assert(vals[5]->Some_0[0].1 != vals[7]->Some_0[0].1);
    assert(vals[5]->Some_0[0].1 != vals[8]->Some_0[0].1);
    assert(vals[5]->Some_0[0].1 != vals[9]->Some_0[0].1);
    assert(vals[5]->Some_0[0].1 != vals[10]->Some_0[0].1);
    assert(vals[5]->Some_0[0].1 != vals[11]->Some_0[0].1);
    assert(vals[5]->Some_0[0].1 != vals[12]->Some_0[0].1);
    assert(vals[5]->Some_0[0].1 != vals[13]->Some_0[0].1);
    assert(vals[5]->Some_0[0].1 != vals[14]->Some_0[0].1);
    assert(vals[5]->Some_0[0].1 != vals[15]->Some_0[0].1);
    assert(vals[5]->Some_0[0].1 != vals[16]->Some_0[0].1);
    assert(vals[5]->Some_0[0].1 != vals[17]->Some_0[0].1);
    assert(vals[5]->Some_0[0].1 != vals[18]->Some_0[0].1);
    assert(vals[5]->Some_0[0].1 != vals[19]->Some_0[0].1);
    assert(vals[5]->Some_0[0].0 != vals[20]->Some_0[0].0);
    assert(vals[5]->Some_0[0].0 != vals[21]->Some_0[0].0);
    assert(vals[5]->Some_0[0].1 != vals[22]->Some_0[0].1);
    assert(vals[5]->Some_0[0].4[0] != vals[23]->Some_0[0].4[0]);
    assert(vals[5]->Some_0[0].1 != vals[24]->Some_0[0].1);
    assert(vals[5]->Some_0[0].1 != vals[25]->Some_0[0].1);
    assert(vals[5]->Some_0[0].1 != vals[26]->Some_0[0].1);
    assert(vals[5]->Some_0[0].1 != vals[27]->Some_0[0].1);
    assert(vals[5]->Some_0[0].1 != vals[28]->Some_0[0].1);
    assert(vals[5]->Some_0[0].1 != vals[29]->Some_0[0].1);
    assert(vals[5]->Some_0[0].1 != vals[30]->Some_0[0].1);
    assert(vals[5]->Some_0[0].1 != vals[31]->Some_0[0].1);
    assert(vals[5]->Some_0[0].1 != vals[32]->Some_0[0].1);
    assert(vals[5]->Some_0[0].1 != vals[33]->Some_0[0].1);
    assert(vals[6]->Some_0[0].2 != vals[7]->Some_0[0].2);
    assert(vals[6]->Some_0[0].4.len() != vals[8]->Some_0[0].4.len());
    assert(vals[6]->Some_0[0].2 != vals[9]->Some_0[0].2);
    assert(vals[6]->Some_0[0].2 != vals[10]->Some_0[0].2);
    assert(vals[6]->Some_0[0].4[0] != vals[11]->Some_0[0].4[0]);
    assert(vals[6]->Some_0[0].4[0] != vals[12]->Some_0[0].4[0]);
    assert(vals[6]->Some_0[0].2 != vals[13]->Some_0[0].2);
    assert(vals[6]->Some_0[0].2 != vals[14]->Some_0[0].2);
    assert(vals[6]->Some_0[0].4.len() != vals[15]->Some_0[0].4.len());
    assert(vals[6]->Some_0[0].4.len() != vals[16]->Some_0[0].4.len());
    assert(vals[6]->Some_0[0].4[0] != vals[17]->Some_0[0].4[0]);
    assert(vals[6]->Some_0[0].4.len() != vals[18]->Some_0[0].4.len());
    assert(vals[6]->Some_0[0].4.len() != vals[19]->Some_0[0].4.len());
    assert(vals[6]->Some_0[0].0 != vals[20]->Some_0[0].0);
    assert(vals[6]->Some_0[0].0 != vals[21]->Some_0[0].0);
    assert(vals[6]->Some_0[0].2 != vals[22]->Some_0[0].2);
    assert(vals[6]->Some_0[0].1 != vals[23]->Some_0[0].1);
    assert(vals[6]->Some_0[0].4[0] != vals[24]->Some_0[0].4[0]);
    assert(vals[6]->Some_0[0].4[0] != vals[25]->Some_0[0].4[0]);
    assert(vals[6]->Some_0[0].4.len() != vals[26]->Some_0[0].4.len());
    assert(vals[6]->Some_0[0].3 != vals[27]->Some_0[0].3);
    assert(vals[6]->Some_0[0].3 != vals[28]->Some_0[0].3);
    assert(vals[6]->Some_0[0].3 != vals[29]->Some_0[0].3);
    assert(vals[6]->Some_0[0].3 != vals[30]->Some_0[0].3);
    assert(vals[6]->Some_0[0].3 != vals[31]->Some_0[0].3);
    assert(vals[6]->Some_0[0].3 != vals[32]->Some_0[0].3);
    assert(vals[6]->Some_0[0].3 != vals[33]->Some_0[0].3);
    assert(vals[7]->Some_0[0].2 != vals[8]->Some_0[0].2);
    assert(vals[7]->Some_0[0].4[0] != vals[9]->Some_0[0].4[0]);
    assert(vals[7]->Some_0[0].4[0] != vals[10]->Some_0[0].4[0]);
    assert(vals[7]->Some_0[0].2 != vals[11]->Some_0[0].2);
    assert(vals[7]->Some_0[0].2 != vals[12]->Some_0[0].2);
    assert(vals[7]->Some_0[0].4[0] != vals[13]->Some_0[0].4[0]);
    assert(vals[7]->Some_0[0].4[0] != vals[14]->Some_0[0].4[0]);
    assert(vals[7]->Some_0[0].2 != vals[15]->Some_0[0].2);
    assert(vals[7]->Some_0[0].2 != vals[16]->Some_0[0].2);
    assert(vals[7]->Some_0[0].2 != vals[17]->Some_0[0].2);
    assert(vals[7]->Some_0[0].2 != vals[18]->Some_0[0].2);
    assert(vals[7]->Some_0[0].2 != vals[19]->Some_0[0].2);
    assert(vals[7]->Some_0[0].0 != vals[20]->Some_0[0].0);
    assert(vals[7]->Some_0[0].0 != vals[21]->Some_0[0].0);
    assert(vals[7]->Some_0[0].4[0] != vals[22]->Some_0[0].4[0]);
    assert(vals[7]->Some_0[0].1 != vals[23]->Some_0[0].1);
    assert(vals[7]->Some_0[0].2 != vals[24]->Some_0[0].2);
    assert(vals[7]->Some_0[0].2 != vals[25]->Some_0[0].2);
    assert(vals[7]->Some_0[0].2 != vals[26]->Some_0[0].2);
    assert(vals[7]->Some_0[0].2 != vals[27]->Some_0[0].2);
    assert(vals[7]->Some_0[0].2 != vals[28]->Some_0[0].2);
    assert(vals[7]->Some_0[0].2 != vals[29]->Some_0[0].2);
    assert(vals[7]->Some_0[0].2 != vals[30]->Some_0[0].2);
    assert(vals[7]->Some_0[0].2 != vals[31]->Some_0[0].2);
    assert(vals[7]->Some_0[0].2 != vals[32]->Some_0[0].2);
    assert(vals[7]->Some_0[0].2 != vals[33]->Some_0[0].2);
    assert(vals[8]->Some_0[0].2 != vals[9]->Some_0[0].2);
    assert(vals[8]->Some_0[0].2 != vals[10]->Some_0[0].2);
    assert(vals[8]->Some_0[0].4.len() != vals[11]->Some_0[0].4.len());
    assert(vals[8]->Some_0[0].4.len() != vals[12]->Some_0[0].4.len());
    assert(vals[8]->Some_0[0].2 != vals[13]->Some_0[0].2);
    assert(vals[8]->Some_0[0].2 != vals[14]->Some_0[0].2);
    assert(vals[8]->Some_0[0].4[0] != vals[15]->Some_0[0].4[0]);
    assert(vals[8]->Some_0[0].4[0] != vals[16]->Some_0[0].4[0]);
    assert(vals[8]->Some_0[0].4.len() != vals[17]->Some_0[0].4.len());
    assert(vals[8]->Some_0[0].4.len() != vals[18]->Some_0[0].4.len());
    assert(vals[8]->Some_0[0].4.len() != vals[19]->Some_0[0].4.len());
    assert(vals[8]->Some_0[0].0 != vals[20]->Some_0[0].0);
    assert(vals[8]->Some_0[0].0 != vals[21]->Some_0[0].0);
    assert(vals[8]->Some_0[0].2 != vals[22]->Some_0[0].2);
    assert(vals[8]->Some_0[0].1 != vals[23]->Some_0[0].1);
    assert(vals[8]->Some_0[0].4.len() != vals[24]->Some_0[0].4.len());
    assert(vals[8]->Some_0[0].4.len() != vals[25]->Some_0[0].4.len());
    assert(vals[8]->Some_0[0].4[0] != vals[26]->Some_0[0].4[0]);
    assert(vals[8]->Some_0[0].3 != vals[27]->Some_0[0].3);
    assert(vals[8]->Some_0[0].3 != vals[28]->Some_0[0].3);
    assert(vals[8]->Some_0[0].3 != vals[29]->Some_0[0].3);
    assert(vals[8]->Some_0[0].3 != vals[30]->Some_0[0].3);
    assert(vals[8]->Some_0[0].3 != vals[31]->Some_0[0].3);
    assert(vals[8]->Some_0[0].3 != vals[32]->Some_0[0].3);
    assert(vals[8]->Some_0[0].3 != vals[33]->Some_0[0].3);
    assert(vals[9]->Some_0[0].4[0] != vals[10]->Some_0[0].4[0]);
    assert(vals[9]->Some_0[0].2 != vals[11]->Some_0[0].2);
    assert(vals[9]->Some_0[0].2 != vals[12]->Some_0[0].2);
    assert(vals[9]->Some_0[0].4[0] != vals[13]->Some_0[0].4[0]);
    assert(vals[9]->Some_0[0].4[0] != vals[14]->Some_0[0].4[0]);
    assert(vals[9]->Some_0[0].2 != vals[15]->Some_0[0].2);
    assert(vals[9]->Some_0[0].2 != vals[16]->Some_0[0].2);
    assert(vals[9]->Some_0[0].2 != vals[17]->Some_0[0].2);
    assert(vals[9]->Some_0[0].2 != vals[18]->Some_0[0].2);
    assert(vals[9]->Some_0[0].2 != vals[19]->Some_0[0].2);
    assert(vals[9]->Some_0[0].0 != vals[20]->Some_0[0].0);
    assert(vals[9]->Some_0[0].0 != vals[21]->Some_0[0].0);
    assert(vals[9]->Some_0[0].4[0] != vals[22]->Some_0[0].4[0]);
    assert(vals[9]->Some_0[0].1 != vals[23]->Some_0[0].1);
    assert(vals[9]->Some_0[0].2 != vals[24]->Some_0[0].2);
    assert(vals[9]->Some_0[0].2 != vals[25]->Some_0[0].2);
    assert(vals[9]->Some_0[0].2 != vals[26]->Some_0[0].2);
    assert(vals[9]->Some_0[0].2 != vals[27]->Some_0[0].2);
    assert(vals[9]->Some_0[0].2 != vals[28]->Some_0[0].2);
    assert(vals[9]->Some_0[0].2 != vals[29]->Some_0[0].2);
    assert(vals[9]->Some_0[0].2 != vals[30]->Some_0[0].2);
    assert(vals[9]->Some_0[0].2 != vals[31]->Some_0[0].2);
    assert(vals[9]->Some_0[0].2 != vals[32]->Some_0[0].2);
    assert(vals[9]->Some_0[0].2 != vals[33]->Some_0[0].2);
    assert(vals[10]->Some_0[0].2 != vals[11]->Some_0[0].2);
    assert(vals[10]->Some_0[0].2 != vals[12]->Some_0[0].2);
    assert(vals[10]->Some_0[0].4[0] != vals[13]->Some_0[0].4[0]);
    assert(vals[10]->Some_0[0].4[0] != vals[14]->Some_0[0].4[0]);
    assert(vals[10]->Some_0[0].2 != vals[15]->Some_0[0].2);
    assert(vals[10]->Some_0[0].2 != vals[16]->Some_0[0].2);
    assert(vals[10]->Some_0[0].2 != vals[17]->Some_0[0].2);
    assert(vals[10]->Some_0[0].2 != vals[18]->Some_0[0].2);
    assert(vals[10]->Some_0[0].2 != vals[19]->Some_0[0].2);
    assert(vals[10]->Some_0[0].0 != vals[20]->Some_0[0].0);
    assert(vals[10]->Some_0[0].0 != vals[21]->Some_0[0].0);
    assert(vals[10]->Some_0[0].4[0] != vals[22]->Some_0[0].4[0]);
    assert(vals[10]->Some_0[0].1 != vals[23]->Some_0[0].1);
    assert(vals[10]->Some_0[0].2 != vals[24]->Some_0[0].2);
    assert(vals[10]->Some_0[0].2 != vals[25]->Some_0[0].2);
    assert(vals[10]->Some_0[0].2 != vals[26]->Some_0[0].2);
    assert(vals[10]->Some_0[0].2 != vals[27]->Some_0[0].2);
    assert(vals[10]->Some_0[0].2 != vals[28]->Some_0[0].2);
    assert(vals[10]->Some_0[0].2 != vals[29]->Some_0[0].2);
    assert(vals[10]->Some_0[0].2 != vals[30]->Some_0[0].2);
    assert(vals[10]->Some_0[0].2 != vals[31]->Some_0[0].2);
    assert(vals[10]->Some_0[0].2 != vals[32]->Some_0[0].2);
    assert(vals[10]->Some_0[0].2 != vals[33]->Some_0[0].2);
    assert(vals[11]->Some_0[0].4[0] != vals[12]->Some_0[0].4[0]);
    assert(vals[11]->Some_0[0].2 != vals[13]->Some_0[0].2);
    assert(vals[11]->Some_0[0].2 != vals[14]->Some_0[0].2);
    assert(vals[11]->Some_0[0].4.len() != vals[15]->Some_0[0].4.len());
    assert(vals[11]->Some_0[0].4.len() != vals[16]->Some_0[0].4.len());
    assert(vals[11]->Some_0[0].4[0] != vals[17]->Some_0[0].4[0]);
    assert(vals[11]->Some_0[0].4.len() != vals[18]->Some_0[0].4.len());
    assert(vals[11]->Some_0[0].4.len() != vals[19]->Some_0[0].4.len());
    assert(vals[11]->Some_0[0].0 != vals[20]->Some_0[0].0);
    assert(vals[11]->Some_0[0].0 != vals[21]->Some_0[0].0);
    assert(vals[11]->Some_0[0].2 != vals[22]->Some_0[0].2);
    assert(vals[11]->Some_0[0].1 != vals[23]->Some_0[0].1);
    assert(vals[11]->Some_0[0].4[0] != vals[24]->Some_0[0].4[0]);
    assert(vals[11]->Some_0[0].4[0] != vals[25]->Some_0[0].4[0]);
    assert(vals[11]->Some_0[0].4.len() != vals[26]->Some_0[0].4.len());
    assert(vals[11]->Some_0[0].3 != vals[27]->Some_0[0].3);
    assert(vals[11]->Some_0[0].3 != vals[28]->Some_0[0].3);
    assert(vals[11]->Some_0[0].3 != vals[29]->Some_0[0].3);
    assert(vals[11]->Some_0[0].3 != vals[30]->Some_0[0].3);
    assert(vals[11]->Some_0[0].3 != vals[31]->Some_0[0].3);
    assert(vals[11]->Some_0[0].3 != vals[32]->Some_0[0].3);
    assert(vals[11]->Some_0[0].3 != vals[33]->Some_0[0].3);
    assert(vals[12]->Some_0[0].2 != vals[13]->Some_0[0].2);
    assert(vals[12]->Some_0[0].2 != vals[14]->Some_0[0].2);
    assert(vals[12]->Some_0[0].4.len() != vals[15]->Some_0[0].4.len());
    assert(vals[12]->Some_0[0].4.len() != vals[16]->Some_0[0].4.len());
    assert(vals[12]->Some_0[0].4[0] != vals[17]->Some_0[0].4[0]);
    assert(vals[12]->Some_0[0].4.len() != vals[18]->Some_0[0].4.len());
    assert(vals[12]->Some_0[0].4.len() != vals[19]->Some_0[0].4.len());
    assert(vals[12]->Some_0[0].0 != vals[20]->Some_0[0].0);
    assert(vals[12]->Some_0[0].0 != vals[21]->Some_0[0].0);
    assert(vals[12]->Some_0[0].2 != vals[22]->Some_0[0].2);
    assert(vals[12]->Some_0[0].1 != vals[23]->Some_0[0].1);
    assert(vals[12]->Some_0[0].4[0] != vals[24]->Some_0[0].4[0]);
    assert(vals[12]->Some_0[0].4[0] != vals[25]->Some_0[0].4[0]);
    assert(vals[12]->Some_0[0].4.len() != vals[26]->Some_0[0].4.len());
    assert(vals[12]->Some_0[0].3 != vals[27]->Some_0[0].3);
    assert(vals[12]->Some_0[0].3 != vals[28]->Some_0[0].3);
    assert(vals[12]->Some_0[0].3 != vals[29]->Some_0[0].3);
    assert(vals[12]->Some_0[0].3 != vals[30]->Some_0[0].3);
    assert(vals[12]->Some_0[0].3 != vals[31]->Some_0[0].3);
    assert(vals[12]->Some_0[0].3 != vals[32]->Some_0[0].3);
    assert(vals[12]->Some_0[0].3 != vals[33]->Some_0[0].3);
    assert(vals[13]->Some_0[0].4[0] != vals[14]->Some_0[0].4[0]);
    assert(vals[13]->Some_0[0].2 != vals[15]->Some_0[0].2);
    assert(vals[13]->Some_0[0].2 != vals[16]->Some_0[0].2);
    assert(vals[13]->Some_0[0].2 != vals[17]->Some_0[0].2);
    assert(vals[13]->Some_0[0].2 != vals[18]->Some_0[0].2);
    assert(vals[13]->Some_0[0].2 != vals[19]->Some_0[0].2);
    assert(vals[13]->Some_0[0].0 != vals[20]->Some_0[0].0);
    assert(vals[13]->Some_0[0].0 != vals[21]->Some_0[0].0);
    assert(vals[13]->Some_0[0].4[0] != vals[22]->Some_0[0].4[0]);
    assert(vals[13]->Some_0[0].1 != vals[23]->Some_0[0].1);
    assert(vals[13]->Some_0[0].2 != vals[24]->Some_0[0].2);
    assert(vals[13]->Some_0[0].2 != vals[25]->Some_0[0].2);
    assert(vals[13]->Some_0[0].2 != vals[26]->Some_0[0].2);
    assert(vals[13]->Some_0[0].2 != vals[27]->Some_0[0].2);
    assert(vals[13]->Some_0[0].2 != vals[28]->Some_0[0].2);
    assert(vals[13]->Some_0[0].2 != vals[29]->Some_0[0].2);
    assert(vals[13]->Some_0[0].2 != vals[30]->Some_0[0].2);
    assert(vals[13]->Some_0[0].2 != vals[31]->Some_0[0].2);
    assert(vals[13]->Some_0[0].2 != vals[32]->Some_0[0].2);
    assert(vals[13]->Some_0[0].2 != vals[33]->Some_0[0].2);
    assert(vals[14]->Some_0[0].2 != vals[15]->Some_0[0].2);
    assert(vals[14]->Some_0[0].2 != vals[16]->Some_0[0].2);
    assert(vals[14]->Some_0[0].2 != vals[17]->Some_0[0].2);
    assert(vals[14]->Some_0[0].2 != vals[18]->Some_0[0].2);
    assert(vals[14]->Some_0[0].2 != vals[19]->Some_0[0].2);
    assert(vals[14]->Some_0[0].0 != vals[20]->Some_0[0].0);
    assert(vals[14]->Some_0[0].0 != vals[21]->Some_0[0].0);
    assert(vals[14]->Some_0[0].4[0] != vals[22]->Some_0[0].4[0]);
    assert(vals[14]->Some_0[0].1 != vals[23]->Some_0[0].1);
    assert(vals[14]->Some_0[0].2 != vals[24]->Some_0[0].2);
    assert(vals[14]->Some_0[0].2 != vals[25]->Some_0[0].2);
    assert(vals[14]->Some_0[0].2 != vals[26]->Some_0[0].2);
    assert(vals[14]->Some_0[0].2 != vals[27]->Some_0[0].2);
    assert(vals[14]->Some_0[0].2 != vals[28]->Some_0[0].2);
    assert(vals[14]->Some_0[0].2 != vals[29]->Some_0[0].2);
    assert(vals[14]->Some_0[0].2 != vals[30]->Some_0[0].2);
    assert(vals[14]->Some_0[0].2 != vals[31]->Some_0[0].2);
    assert(vals[14]->Some_0[0].2 != vals[32]->Some_0[0].2);
    assert(vals[14]->Some_0[0].2 != vals[33]->Some_0[0].2);
    assert(vals[15]->Some_0[0].4[0] != vals[16]->Some_0[0].4[0]);
    assert(vals[15]->Some_0[0].4.len() != vals[17]->Some_0[0].4.len());
    assert(vals[15]->Some_0[0].4.len() != vals[18]->Some_0[0].4.len());
    assert(vals[15]->Some_0[0].4.len() != vals[19]->Some_0[0].4.len());
    assert(vals[15]->Some_0[0].0 != vals[20]->Some_0[0].0);
    assert(vals[15]->Some_0[0].0 != vals[21]->Some_0[0].0);
    assert(vals[15]->Some_0[0].2 != vals[22]->Some_0[0].2);
    assert(vals[15]->Some_0[0].1 != vals[23]->Some_0[0].1);
    assert(vals[15]->Some_0[0].4.len() != vals[24]->Some_0[0].4.len());
    assert(vals[15]->Some_0[0].4.len() != vals[25]->Some_0[0].4.len());
    assert(vals[15]->Some_0[0].4[0] != vals[26]->Some_0[0].4[0]);
    assert(vals[15]->Some_0[0].3 != vals[27]->Some_0[0].3);
    assert(vals[15]->Some_0[0].3 != vals[28]->Some_0[0].3);
    assert(vals[15]->Some_0[0].3 != vals[29]->Some_0[0].3);
    assert(vals[15]->Some_0[0].3 != vals[30]->Some_0[0].3);
    assert(vals[15]->Some_0[0].3 != vals[31]->Some_0[0].3);
    assert(vals[15]->Some_0[0].3 != vals[32]->Some_0[0].3);
    assert(vals[15]->Some_0[0].3 != vals[33]->Some_0[0].3);
    assert(vals[16]->Some_0[0].4.len() != vals[17]->Some_0[0].4.len());
    assert(vals[16]->Some_0[0].4.len() != vals[18]->Some_0[0].4.len());
    assert(vals[16]->Some_0[0].4.len() != vals[19]->Some_0[0].4.len());
    assert(vals[16]->Some_0[0].0 != vals[20]->Some_0[0].0);
    assert(vals[16]->Some_0[0].0 != vals[21]->Some_0[0].0);
    assert(vals[16]->Some_0[0].2 != vals[22]->Some_0[0].2);
    assert(vals[16]->Some_0[0].1 != vals[23]->Some_0[0].1);
    assert(vals[16]->Some_0[0].4.len() != vals[24]->Some_0[0].4.len());
    assert(vals[16]->Some_0[0].4.len() != vals[25]->Some_0[0].4.len());
    assert(vals[16]->Some_0[0].4[0] != vals[26]->Some_0[0].4[0]);
    assert(vals[16]->Some_0[0].3 != vals[27]->Some_0[0].3);
    assert(vals[16]->Some_0[0].3 != vals[28]->Some_0[0].3);
    assert(vals[16]->Some_0[0].3 != vals[29]->Some_0[0].3);
    assert(vals[16]->Some_0[0].3 != vals[30]->Some_0[0].3);
    assert(vals[16]->Some_0[0].3 != vals[31]->Some_0[0].3);
    assert(vals[16]->Some_0[0].3 != vals[32]->Some_0[0].3);
    assert(vals[16]->Some_0[0].3 != vals[33]->Some_0[0].3);
    assert(vals[17]->Some_0[0].4.len() != vals[18]->Some_0[0].4.len());
    assert(vals[17]->Some_0[0].4.len() != vals[19]->Some_0[0].4.len());
    assert(vals[17]->Some_0[0].0 != vals[20]->Some_0[0].0);
    assert(vals[17]->Some_0[0].0 != vals[21]->Some_0[0].0);
    assert(vals[17]->Some_0[0].2 != vals[22]->Some_0[0].2);
    assert(vals[17]->Some_0[0].1 != vals[23]->Some_0[0].1);
    assert(vals[17]->Some_0[0].4[0] != vals[24]->Some_0[0].4[0]);
    assert(vals[17]->Some_0[0].4[0] != vals[25]->Some_0[0].4[0]);
    assert(vals[17]->Some_0[0].4.len() != vals[26]->Some_0[0].4.len());
    assert(vals[17]->Some_0[0].3 != vals[27]->Some_0[0].3);
    assert(vals[17]->Some_0[0].3 != vals[28]->Some_0[0].3);
    assert(vals[17]->Some_0[0].3 != vals[29]->Some_0[0].3);
    assert(vals[17]->Some_0[0].3 != vals[30]->Some_0[0].3);
    assert(vals[17]->Some_0[0].3 != vals[31]->Some_0[0].3);
    assert(vals[17]->Some_0[0].3 != vals[32]->Some_0[0].3);
    assert(vals[17]->Some_0[0].3 != vals[33]->Some_0[0].3);
    assert(vals[18]->Some_0[0].4.len() != vals[19]->Some_0[0].4.len());
    assert(vals[18]->Some_0[0].0 != vals[20]->Some_0[0].0);
    assert(vals[18]->Some_0[0].0 != vals[21]->Some_0[0].0);
    assert(vals[18]->Some_0[0].2 != vals[22]->Some_0[0].2);
    assert(vals[18]->Some_0[0].1 != vals[23]->Some_0[0].1);
    assert(vals[18]->Some_0[0].4.len() != vals[24]->Some_0[0].4.len());
    assert(vals[18]->Some_0[0].4.len() != vals[25]->Some_0[0].4.len());
    assert(vals[18]->Some_0[0].4.len() != vals[26]->Some_0[0].4.len());
    assert(vals[18]->Some_0[0].3 != vals[27]->Some_0[0].3);
    assert(vals[18]->Some_0[0].3 != vals[28]->Some_0[0].3);
    assert(vals[18]->Some_0[0].3 != vals[29]->Some_0[0].3);
    assert(vals[18]->Some_0[0].3 != vals[30]->Some_0[0].3);
    assert(vals[18]->Some_0[0].3 != vals[31]->Some_0[0].3);
    assert(vals[18]->Some_0[0].3 != vals[32]->Some_0[0].3);
    assert(vals[18]->Some_0[0].3 != vals[33]->Some_0[0].3);
    assert(vals[19]->Some_0[0].0 != vals[20]->Some_0[0].0);
    assert(vals[19]->Some_0[0].0 != vals[21]->Some_0[0].0);
    assert(vals[19]->Some_0[0].2 != vals[22]->Some_0[0].2);
    assert(vals[19]->Some_0[0].1 != vals[23]->Some_0[0].1);
    assert(vals[19]->Some_0[0].4.len() != vals[24]->Some_0[0].4.len());
    assert(vals[19]->Some_0[0].4.len() != vals[25]->Some_0[0].4.len());
    assert(vals[19]->Some_0[0].4.len() != vals[26]->Some_0[0].4.len());
    assert(vals[19]->Some_0[0].3 != vals[27]->Some_0[0].3);
    assert(vals[19]->Some_0[0].3 != vals[28]->Some_0[0].3);
    assert(vals[19]->Some_0[0].3 != vals[29]->Some_0[0].3);
    assert(vals[19]->Some_0[0].3 != vals[30]->Some_0[0].3);
    assert(vals[19]->Some_0[0].3 != vals[31]->Some_0[0].3);
    assert(vals[19]->Some_0[0].3 != vals[32]->Some_0[0].3);
    assert(vals[19]->Some_0[0].3 != vals[33]->Some_0[0].3);
    assert(vals[20]->Some_0[0].2 != vals[21]->Some_0[0].2);
    assert(vals[20]->Some_0[0].0 != vals[22]->Some_0[0].0);
    assert(vals[20]->Some_0[0].0 != vals[23]->Some_0[0].0);
    assert(vals[20]->Some_0[0].0 != vals[24]->Some_0[0].0);
    assert(vals[20]->Some_0[0].0 != vals[25]->Some_0[0].0);
    assert(vals[20]->Some_0[0].0 != vals[26]->Some_0[0].0);
    assert(vals[20]->Some_0[0].0 != vals[27]->Some_0[0].0);
    assert(vals[20]->Some_0[0].0 != vals[28]->Some_0[0].0);
    assert(vals[20]->Some_0[0].0 != vals[29]->Some_0[0].0);
    assert(vals[20]->Some_0[0].0 != vals[30]->Some_0[0].0);
    assert(vals[20]->Some_0[0].0 != vals[31]->Some_0[0].0);
    assert(vals[20]->Some_0[0].0 != vals[32]->Some_0[0].0);
    assert(vals[20]->Some_0[0].0 != vals[33]->Some_0[0].0);
    assert(vals[21]->Some_0[0].0 != vals[22]->Some_0[0].0);
    assert(vals[21]->Some_0[0].0 != vals[23]->Some_0[0].0);
    assert(vals[21]->Some_0[0].0 != vals[24]->Some_0[0].0);
    assert(vals[21]->Some_0[0].0 != vals[25]->Some_0[0].0);
    assert(vals[21]->Some_0[0].0 != vals[26]->Some_0[0].0);
    assert(vals[21]->Some_0[0].0 != vals[27]->Some_0[0].0);
    assert(vals[21]->Some_0[0].0 != vals[28]->Some_0[0].0);
    assert(vals[21]->Some_0[0].0 != vals[29]->Some_0[0].0);
    assert(vals[21]->Some_0[0].0 != vals[30]->Some_0[0].0);
    assert(vals[21]->Some_0[0].0 != vals[31]->Some_0[0].0);
    assert(vals[21]->Some_0[0].0 != vals[32]->Some_0[0].0);
    assert(vals[21]->Some_0[0].0 != vals[33]->Some_0[0].0);
    assert(vals[22]->Some_0[0].1 != vals[23]->Some_0[0].1);
    assert(vals[22]->Some_0[0].2 != vals[24]->Some_0[0].2);
    assert(vals[22]->Some_0[0].2 != vals[25]->Some_0[0].2);
    assert(vals[22]->Some_0[0].2 != vals[26]->Some_0[0].2);
    assert(vals[22]->Some_0[0].2 != vals[27]->Some_0[0].2);
    assert(vals[22]->Some_0[0].2 != vals[28]->Some_0[0].2);
    assert(vals[22]->Some_0[0].2 != vals[29]->Some_0[0].2);
    assert(vals[22]->Some_0[0].2 != vals[30]->Some_0[0].2);
    assert(vals[22]->Some_0[0].2 != vals[31]->Some_0[0].2);
    assert(vals[22]->Some_0[0].2 != vals[32]->Some_0[0].2);
    assert(vals[22]->Some_0[0].2 != vals[33]->Some_0[0].2);
    assert(vals[23]->Some_0[0].1 != vals[24]->Some_0[0].1);
    assert(vals[23]->Some_0[0].1 != vals[25]->Some_0[0].1);
    assert(vals[23]->Some_0[0].1 != vals[26]->Some_0[0].1);
    assert(vals[23]->Some_0[0].1 != vals[27]->Some_0[0].1);
    assert(vals[23]->Some_0[0].1 != vals[28]->Some_0[0].1);
    assert(vals[23]->Some_0[0].1 != vals[29]->Some_0[0].1);
    assert(vals[23]->Some_0[0].1 != vals[30]->Some_0[0].1);
    assert(vals[23]->Some_0[0].1 != vals[31]->Some_0[0].1);
    assert(vals[23]->Some_0[0].1 != vals[32]->Some_0[0].1);
    assert(vals[23]->Some_0[0].1 != vals[33]->Some_0[0].1);
    assert(vals[24]->Some_0[0].4[0] != vals[25]->Some_0[0].4[0]);
    assert(vals[24]->Some_0[0].4.len() != vals[26]->Some_0[0].4.len());
    assert(vals[24]->Some_0[0].3 != vals[27]->Some_0[0].3);
    assert(vals[24]->Some_0[0].3 != vals[28]->Some_0[0].3);
    assert(vals[24]->Some_0[0].3 != vals[29]->Some_0[0].3);
    assert(vals[24]->Some_0[0].3 != vals[30]->Some_0[0].3);
    assert(vals[24]->Some_0[0].3 != vals[31]->Some_0[0].3);
    assert(vals[24]->Some_0[0].3 != vals[32]->Some_0[0].3);
    assert(vals[24]->Some_0[0].3 != vals[33]->Some_0[0].3);
    assert(vals[25]->Some_0[0].4.len() != vals[26]->Some_0[0].4.len());
    assert(vals[25]->Some_0[0].3 != vals[27]->Some_0[0].3);
    assert(vals[25]->Some_0[0].3 != vals[28]->Some_0[0].3);
    assert(vals[25]->Some_0[0].3 != vals[29]->Some_0[0].3);
    assert(vals[25]->Some_0[0].3 != vals[30]->Some_0[0].3);
    assert(vals[25]->Some_0[0].3 != vals[31]->Some_0[0].3);
    assert(vals[25]->Some_0[0].3 != vals[32]->Some_0[0].3);
    assert(vals[25]->Some_0[0].3 != vals[33]->Some_0[0].3);
    assert(vals[26]->Some_0[0].3 != vals[27]->Some_0[0].3);
    assert(vals[26]->Some_0[0].3 != vals[28]->Some_0[0].3);
    assert(vals[26]->Some_0[0].3 != vals[29]->Some_0[0].3);
    assert(vals[26]->Some_0[0].3 != vals[30]->Some_0[0].3);
    assert(vals[26]->Some_0[0].3 != vals[31]->Some_0[0].3);
    assert(vals[26]->Some_0[0].3 != vals[32]->Some_0[0].3);
    assert(vals[26]->Some_0[0].3 != vals[33]->Some_0[0].3);
    assert(vals[27]->Some_0[0].4.len() != vals[28]->Some_0[0].4.len());
    assert(vals[27]->Some_0[0].4.len() != vals[29]->Some_0[0].4.len());
    assert(vals[27]->Some_0[0].4.len() != vals[30]->Some_0[0].4.len());
    assert(vals[27]->Some_0[0].4.len() != vals[31]->Some_0[0].4.len());
    assert(vals[27]->Some_0[0].4.len() != vals[32]->Some_0[0].4.len());
    assert(vals[27]->Some_0[0].4.len() != vals[33]->Some_0[0].4.len());
    assert(vals[28]->Some_0[0].4.len() != vals[29]->Some_0[0].4.len());
    assert(vals[28]->Some_0[0].4.len() != vals[30]->Some_0[0].4.len());
    assert(vals[28]->Some_0[0].4.len() != vals[31]->Some_0[0].4.len());
    assert(vals[28]->Some_0[0].4.len() != vals[32]->Some_0[0].4.len());
    assert(vals[28]->Some_0[0].4.len() != vals[33]->Some_0[0].4.len());
    assert(vals[29]->Some_0[0].4.len() != vals[30]->Some_0[0].4.len());
    assert(vals[29]->Some_0[0].4.len() != vals[31]->Some_0[0].4.len());
    assert(vals[29]->Some_0[0].4.len() != vals[32]->Some_0[0].4.len());
    assert(vals[29]->Some_0[0].4.len() != vals[33]->Some_0[0].4.len());
    assert(vals[30]->Some_0[0].4.len() != vals[31]->Some_0[0].4.len());
    assert(vals[30]->Some_0[0].4.len() != vals[32]->Some_0[0].4.len());
    assert(vals[30]->Some_0[0].4[0] != vals[33]->Some_0[0].4[0]);
    assert(vals[31]->Some_0[0].4.len() != vals[32]->Some_0[0].4.len());
    assert(vals[31]->Some_0[0].4.len() != vals[33]->Some_0[0].4.len());
    assert(vals[32]->Some_0[0].4.len() != vals[33]->Some_0[0].4.len());
    assert forall|i: int, j: int| 0 <= i < j < kas.len() implies #[trigger] spec_parse_shortcut(kas[i].0)
        != #[trigger] spec_parse_shortcut(kas[j].0) by {
        assert(i == 0 || i == 1 || i == 2 || i == 3 || i == 4 || i == 5 || i == 6 || i == 7 || i == 8 || i == 9 || i == 10 || i == 11 || i == 12 || i == 13 || i == 14 || i == 15 || i == 16 || i == 17 || i == 18 || i == 19 || i == 20 || i == 21 || i == 22 || i == 23 || i == 24 || i == 25 || i == 26 || i == 27 || i == 28 || i == 29 || i == 30 || i == 31 || i == 32 || i == 33);
        assert(j == 0 || j == 1 || j == 2 || j == 3 || j == 4 || j == 5 || j == 6 || j == 7 || j == 8 || j == 9 || j == 10 || j == 11 || j == 12 || j == 13 || j == 14 || j == 15 || j == 16 || j == 17 || j == 18 || j == 19 || j == 20 || j == 21 || j == 22 || j == 23 || j == 24 || j == 25 || j == 26 || j == 27 || j == 28 || j == 29 || j == 30 || j == 31 || j == 32 || j == 33);
    }
}

/// The `content` list is empty, so it is valid.
proof fn lemma_content_valid()
    ensures
        spec_field_valid(spec_content()),
{
}

/// `ArrowDown` denotes its chords.
proof fn lemma_sidebar_key_0()
    ensures
        spec_parse_shortcut("ArrowDown"@) == Some(seq![(false, false, false, false, "ArrowDown"@)]),
{
    lemma_modifier_names();
    reveal_strlit("ArrowDown");
    lemma_chord_key("ArrowDown"@);
    lemma_shortcut_single("ArrowDown"@);
}

/// `ArrowUp` denotes its chords.
proof fn lemma_sidebar_key_1()
    ensures
        spec_parse_shortcut("ArrowUp"@) == Some(seq![(false, false, false, false, "ArrowUp"@)]),
{
    lemma_modifier_names();
    reveal_strlit("ArrowUp");
    lemma_chord_key("ArrowUp"@);
    lemma_shortcut_single("ArrowUp"@);
}

/// `Enter` denotes its chords.
proof fn lemma_sidebar_key_2()
    ensures
        spec_parse_shortcut("Enter"@) == Some(seq![(false, false, false, false, "Enter"@)]),
{
    lemma_modifier_names();
    reveal_strlit("Enter");
    lemma_chord_key("Enter"@);
    lemma_shortcut_single("Enter"@);
}

/// `ArrowLeft` denotes its chords.
proof fn lemma_sidebar_key_3()
    ensures
        spec_parse_shortcut("ArrowLeft"@) == Some(seq![(false, false, false, false, "ArrowLeft"@)]),
{
    lemma_modifier_names();
    reveal_strlit("ArrowLeft");
    lemma_chord_key("ArrowLeft"@);
    lemma_shortcut_single("ArrowLeft"@);
}

/// Every entry of the `sidebar` list names a shortcut and a known action, and no two
/// entries denote the same shortcut.
#[verifier::spinoff_prover]
proof fn lemma_sidebar_valid()
    ensures
        spec_field_valid(spec_sidebar()),
{
    lemma_sidebar_key_0();
    lemma_sidebar_key_1();
    lemma_sidebar_key_2();
    lemma_sidebar_key_3();
    assert(Action::CursorCollapse.spec_name() == "cursor.collapse"@);
    assert(Action::CursorDown.spec_name() == "cursor.down"@);
    assert(Action::CursorEnter.spec_name() == "cursor.enter"@);
    assert(Action::CursorUp.spec_name() == "cursor.up"@);
    let kas = spec_sidebar();
    let vals: Seq<Option<Seq<ChordView>>> = seq![
        Some(seq![(false, false, false, false, "ArrowDown"@)]),
        Some(seq![(false, false, false, false, "ArrowUp"@)]),
        Some(seq![(false, false, false, false, "Enter"@)]),
        Some(seq![(false, false, false, false, "ArrowLeft"@)]),
    ];
    assert forall|i: int| 0 <= i < kas.len() implies #[trigger] spec_parse_shortcut(kas[i].0) == vals[i]
        && (#[trigger] spec_parse_action(kas[i].1)) is Some by {
        if i == 0 {
            assert(kas[0] == ("ArrowDown"@, "cursor.down"@));
        } else if i == 1 {
            assert(kas[1] == ("ArrowUp"@, "cursor.up"@));
        } else if i == 2 {
            assert(kas[2] == ("Enter"@, "cursor.enter"@));
        } else if i == 3 {
            assert(kas[3] == ("ArrowLeft"@, "cursor.collapse"@));
        }
    }
    reveal_strlit("ArrowDown");
    reveal_strlit("ArrowLeft");
    reveal_strlit("ArrowUp");
    reveal_strlit("Enter");
    assert(vals[0]->Some_0[0].4.len() != vals[1]->Some_0[0].4.len());
    assert(vals[0]->Some_0[0].4.len() != vals[2]->Some_0[0].4.len());
    assert(vals[0]->Some_0[0].4[5] != vals[3]->Some_0[0].4[5]);
    assert(vals[1]->Some_0[0].4.len() != vals[2]->Some_0[0].4.len());
    assert(vals[1]->Some_0[0].4.len() != vals[3]->Some_0[0].4.len());
    assert(vals[2]->Some_0[0].4.len() != vals[3]->Some_0[0].4.len());
    assert forall|i: int, j: int| 0 <= i < j < kas.len() implies #[trigger] spec_parse_shortcut(kas[i].0)
        != #[trigger] spec_parse_shortcut(kas[j].0) by {
        assert(i == 0 || i == 1 || i == 2 || i == 3);
        assert(j == 0 || j == 1 || j == 2 || j == 3);
    }
}

/// The `quick_access` list is empty, so it is valid.
proof fn lemma_quick_access_valid()
    ensures
        spec_field_valid(spec_quick_access()),
{
}

/// The `right_sidebar` list is empty, so it is valid.
proof fn lemma_right_sidebar_valid()
    ensures
        spec_field_valid(spec_right_sidebar()),
{
}

/// `Enter` denotes its chords.
proof fn lemma_search_key_0()
    ensures
        spec_parse_shortcut("Enter"@) == Some(seq![(false, false, false, false, "Enter"@)]),
{
    lemma_modifier_names();
    reveal_strlit("Enter");
    lemma_chord_key("Enter"@);
    lemma_shortcut_single("Enter"@);
}

/// `Shift+Enter` denotes its chords.
proof fn lemma_search_key_1()
    ensures
        spec_parse_shortcut("Shift+Enter"@) == Some(seq![(false, false, true, false, "Enter"@)]),
{
    lemma_modifier_names();
    reveal_strlit("Enter");
    reveal_strlit("Shift");
    reveal_strlit("Shift+Enter");
    lemma_chord_key("Enter"@);
    assert("Shift+Enter"@ =~= "Shift"@ + seq!['+'] + "Enter"@);
    lemma_chord_mod("Shift"@, "Enter"@);
    lemma_shortcut_single("Shift+Enter"@);
}

/// Every entry of the `search` list names a shortcut and a known action, and no two
/// entries denote the same shortcut.
#[verifier::spinoff_prover]
proof fn lemma_search_valid()
    ensures
        spec_field_valid(spec_search()),
{
    lemma_search_key_0();
    lemma_search_key_1();
    assert(Action::SearchNext.spec_name() == "search.next"@);
    assert(Action::SearchPrev.spec_name() == "search.prev"@);
    let kas = spec_search();
    let vals: Seq<Option<Seq<ChordView>>> = seq![
        Some(seq![(false, false, false, false, "Enter"@)]),
        Some(seq![(false, false, true, false, "Enter"@)]),
    ];
    assert forall|i: int| 0 <= i < kas.len() implies #[trigger] spec_parse_shortcut(kas[i].0) == vals[i]
        && (#[trigger] spec_parse_action(kas[i].1)) is Some by {
        if i == 0 {
            assert(kas[0] == ("Enter"@, "search.next"@));
        } else if i == 1 {
            assert(kas[1] == ("Shift+Enter"@, "search.prev"@));
        }
    }
    reveal_strlit("Enter");
    assert(vals[0]->Some_0[0].2 != vals[1]->Some_0[0].2);
    assert forall|i: int, j: int| 0 <= i < j < kas.len() implies #[trigger] spec_parse_shortcut(kas[i].0)
        != #[trigger] spec_parse_shortcut(kas[j].0) by {
        assert(i == 0 || i == 1);
        assert(j == 0 || j == 1);
    }
}


} // verus!
