//! The vim preset: Vim-style shortcuts: single letters and `g` sequences.
use vstd::prelude::*;

use crate::config::{key_action_views, BindingSet, KeyAction, KeyActionView};
use crate::keybindings::action::Action;
use crate::keybindings::presets::{spec_field_valid, spec_parse_action, spec_preset_valid};
use crate::keybindings::shortcut::{
    lemma_chord_key, lemma_chord_mod, lemma_modifier_names, lemma_shortcut_cons, lemma_shortcut_single,
    spec_parse_shortcut, ChordView,
};

verus! {

/// Entries of the `global` list.
pub open spec fn spec_global() -> Seq<KeyActionView> {
    seq![("j"@, "scroll.down"@), ("k"@, "scroll.up"@), ("Ctrl+f"@, "scroll.page_down"@), ("Ctrl+b"@, "scroll.page_up"@), ("Ctrl+d"@, "scroll.half_page_down"@), ("Ctrl+u"@, "scroll.half_page_up"@), ("g g"@, "scroll.top"@), ("Shift+g"@, "scroll.bottom"@), ("g t"@, "tab.next"@), ("g Shift+t"@, "tab.prev"@), ("Shift+h"@, "history.back"@), ("Shift+l"@, "history.forward"@), ("Slash"@, "search.open"@), ("n"@, "search.next"@), ("Shift+n"@, "search.prev"@), ("Cmd+n"@, "window.new"@), ("Cmd+t"@, "tab.new"@), ("Cmd+w"@, "tab.close"@), ("Cmd+o"@, "file.open"@), ("Cmd+q"@, "app.quit"@), ("Ctrl+w h"@, "focus.left_sidebar"@), ("Ctrl+w l"@, "focus.right_sidebar"@), ("Ctrl+w c"@, "focus.content"@), ("Shift+Slash"@, "help.show_keyboard_shortcuts"@), ("Escape"@, "cancel"@)]
}

/// Entries of the `content` list.
pub open spec fn spec_content() -> Seq<KeyActionView> {
    seq![("Ctrl+j"@, "content.next"@), ("Ctrl+k"@, "content.prev"@), ("Shift+BracketRight"@, "content.next_heading"@), ("Shift+BracketLeft"@, "content.prev_heading"@)]
}

/// Entries of the `sidebar` list.
pub open spec fn spec_sidebar() -> Seq<KeyActionView> {
    seq![("l"@, "cursor.enter"@), ("o"@, "cursor.open"@), ("h"@, "cursor.collapse"@), ("Minus"@, "directory.parent"@)]
}

/// Entries of the `quick_access` list.
pub open spec fn spec_quick_access() -> Seq<KeyActionView> {
    Seq::empty()
}

/// Entries of the `right_sidebar` list.
pub open spec fn spec_right_sidebar() -> Seq<KeyActionView> {
    Seq::empty()
}

/// Entries of the `search` list.
pub open spec fn spec_search() -> Seq<KeyActionView> {
    Seq::empty()
}

/// Whether a binding set holds exactly the entries of this preset.
pub open spec fn is_preset(b: BindingSet) -> bool {
    key_action_views(b.global@) == spec_global()
        && key_action_views(b.content@) == spec_content()
        && key_action_views(b.sidebar@) == spec_sidebar()
        && key_action_views(b.quick_access@) == spec_quick_access()
        && key_action_views(b.right_sidebar@) == spec_right_sidebar()
        && key_action_views(b.search@) == spec_search()
}

fn global_entries() -> (v: Vec<KeyAction>)
    ensures
        key_action_views(v@) == spec_global(),
{
    let mut v: Vec<KeyAction> = Vec::new();
    v.push(KeyAction::new("j", "scroll.down"));
    v.push(KeyAction::new("k", "scroll.up"));
    v.push(KeyAction::new("Ctrl+f", "scroll.page_down"));
    v.push(KeyAction::new("Ctrl+b", "scroll.page_up"));
    v.push(KeyAction::new("Ctrl+d", "scroll.half_page_down"));
    v.push(KeyAction::new("Ctrl+u", "scroll.half_page_up"));
    v.push(KeyAction::new("g g", "scroll.top"));
    v.push(KeyAction::new("Shift+g", "scroll.bottom"));
    v.push(KeyAction::new("g t", "tab.next"));
    v.push(KeyAction::new("g Shift+t", "tab.prev"));
    v.push(KeyAction::new("Shift+h", "history.back"));
    v.push(KeyAction::new("Shift+l", "history.forward"));
    v.push(KeyAction::new("Slash", "search.open"));
    v.push(KeyAction::new("n", "search.next"));
    v.push(KeyAction::new("Shift+n", "search.prev"));
    v.push(KeyAction::new("Cmd+n", "window.new"));
    v.push(KeyAction::new("Cmd+t", "tab.new"));
    v.push(KeyAction::new("Cmd+w", "tab.close"));
    v.push(KeyAction::new("Cmd+o", "file.open"));
    v.push(KeyAction::new("Cmd+q", "app.quit"));
    v.push(KeyAction::new("Ctrl+w h", "focus.left_sidebar"));
    v.push(KeyAction::new("Ctrl+w l", "focus.right_sidebar"));
    v.push(KeyAction::new("Ctrl+w c", "focus.content"));
    v.push(KeyAction::new("Shift+Slash", "help.show_keyboard_shortcuts"));
    v.push(KeyAction::new("Escape", "cancel"));
    assert(key_action_views(v@) =~= spec_global());
    v
}

fn content_entries() -> (v: Vec<KeyAction>)
    ensures
        key_action_views(v@) == spec_content(),
{
    let mut v: Vec<KeyAction> = Vec::new();
    v.push(KeyAction::new("Ctrl+j", "content.next"));
    v.push(KeyAction::new("Ctrl+k", "content.prev"));
    v.push(KeyAction::new("Shift+BracketRight", "content.next_heading"));
    v.push(KeyAction::new("Shift+BracketLeft", "content.prev_heading"));
    assert(key_action_views(v@) =~= spec_content());
    v
}

fn sidebar_entries() -> (v: Vec<KeyAction>)
    ensures
        key_action_views(v@) == spec_sidebar(),
{
    let mut v: Vec<KeyAction> = Vec::new();
    v.push(KeyAction::new("l", "cursor.enter"));
    v.push(KeyAction::new("o", "cursor.open"));
    v.push(KeyAction::new("h", "cursor.collapse"));
    v.push(KeyAction::new("Minus", "directory.parent"));
    assert(key_action_views(v@) =~= spec_sidebar());
    v
}

fn quick_access_entries() -> (v: Vec<KeyAction>)
    ensures
        key_action_views(v@) == spec_quick_access(),
{
    let mut v: Vec<KeyAction> = Vec::new();
    assert(key_action_views(v@) =~= spec_quick_access());
    v
}

fn right_sidebar_entries() -> (v: Vec<KeyAction>)
    ensures
        key_action_views(v@) == spec_right_sidebar(),
{
    let mut v: Vec<KeyAction> = Vec::new();
    assert(key_action_views(v@) =~= spec_right_sidebar());
    v
}

fn search_entries() -> (v: Vec<KeyAction>)
    ensures
        key_action_views(v@) == spec_search(),
{
    let mut v: Vec<KeyAction> = Vec::new();
    assert(key_action_views(v@) =~= spec_search());
    v
}

/// The bindings of this preset.
pub fn bindings() -> (b: BindingSet)
    ensures
        is_preset(b),
{
    BindingSet {
        global: global_entries(),
        content: content_entries(),
        sidebar: sidebar_entries(),
        quick_access: quick_access_entries(),
        right_sidebar: right_sidebar_entries(),
        search: search_entries(),
    }
}

/// The preset is valid: every key names a shortcut, every action is known, and no list
/// holds the same shortcut twice.
pub proof fn lemma_preset_valid(b: BindingSet)
    requires
        is_preset(b),
    ensures
        spec_preset_valid(&b),
{
    lemma_global_valid();
    lemma_content_valid();
    lemma_sidebar_valid();
    lemma_quick_access_valid();
    lemma_right_sidebar_valid();
    lemma_search_valid();
}

/// `j` denotes its chords.
proof fn lemma_global_key_0()
    ensures
        spec_parse_shortcut("j"@) == Some(seq![(false, false, false, false, "j"@)]),
{
    lemma_modifier_names();
    reveal_strlit("j");
    lemma_chord_key("j"@);
    lemma_shortcut_single("j"@);
}

/// `k` denotes its chords.
proof fn lemma_global_key_1()
    ensures
        spec_parse_shortcut("k"@) == Some(seq![(false, false, false, false, "k"@)]),
{
    lemma_modifier_names();
    reveal_strlit("k");
    lemma_chord_key("k"@);
    lemma_shortcut_single("k"@);
}

/// `Ctrl+f` denotes its chords.
proof fn lemma_global_key_2()
    ensures
        spec_parse_shortcut("Ctrl+f"@) == Some(seq![(true, false, false, false, "f"@)]),
{
    lemma_modifier_names();
    reveal_strlit("Ctrl");
    reveal_strlit("Ctrl+f");
    reveal_strlit("f");
    lemma_chord_key("f"@);
    assert("Ctrl+f"@ =~= "Ctrl"@ + seq!['+'] + "f"@);
    lemma_chord_mod("Ctrl"@, "f"@);
    lemma_shortcut_single("Ctrl+f"@);
}

/// `Ctrl+b` denotes its chords.
proof fn lemma_global_key_3()
    ensures
        spec_parse_shortcut("Ctrl+b"@) == Some(seq![(true, false, false, false, "b"@)]),
{
    lemma_modifier_names();
    reveal_strlit("Ctrl");
    reveal_strlit("Ctrl+b");
    reveal_strlit("b");
    lemma_chord_key("b"@);
    assert("Ctrl+b"@ =~= "Ctrl"@ + seq!['+'] + "b"@);
    lemma_chord_mod("Ctrl"@, "b"@);
    lemma_shortcut_single("Ctrl+b"@);
}

/// `Ctrl+d` denotes its chords.
proof fn lemma_global_key_4()
    ensures
        spec_parse_shortcut("Ctrl+d"@) == Some(seq![(true, false, false, false, "d"@)]),
{
    lemma_modifier_names();
    reveal_strlit("Ctrl");
    reveal_strlit("Ctrl+d");
    reveal_strlit("d");
    lemma_chord_key("d"@);
    assert("Ctrl+d"@ =~= "Ctrl"@ + seq!['+'] + "d"@);
    lemma_chord_mod("Ctrl"@, "d"@);
    lemma_shortcut_single("Ctrl+d"@);
}

/// `Ctrl+u` denotes its chords.
proof fn lemma_global_key_5()
    ensures
        spec_parse_shortcut("Ctrl+u"@) == Some(seq![(true, false, false, false, "u"@)]),
{
    lemma_modifier_names();
    reveal_strlit("Ctrl");
    reveal_strlit("Ctrl+u");
    reveal_strlit("u");
    lemma_chord_key("u"@);
    assert("Ctrl+u"@ =~= "Ctrl"@ + seq!['+'] + "u"@);
    lemma_chord_mod("Ctrl"@, "u"@);
    lemma_shortcut_single("Ctrl+u"@);
}

/// `g g` denotes its chords.
proof fn lemma_global_key_6()
    ensures
        spec_parse_shortcut("g g"@) == Some(seq![(false, false, false, false, "g"@), (false, false, false, false, "g"@)]),
{
    lemma_modifier_names();
    reveal_strlit("g");
    reveal_strlit("g g");
    lemma_chord_key("g"@);
    lemma_chord_key("g"@);
    lemma_shortcut_single("g"@);
    assert("g g"@ =~= "g"@ + seq![' '] + "g"@);
    lemma_shortcut_cons("g"@, "g"@);
}

/// `Shift+g` denotes its chords.
proof fn lemma_global_key_7()
    ensures
        spec_parse_shortcut("Shift+g"@) == Some(seq![(false, false, true, false, "g"@)]),
{
    lemma_modifier_names();
    reveal_strlit("Shift");
    reveal_strlit("Shift+g");
    reveal_strlit("g");
    lemma_chord_key("g"@);
    assert("Shift+g"@ =~= "Shift"@ + seq!['+'] + "g"@);
    lemma_chord_mod("Shift"@, "g"@);
    lemma_shortcut_single("Shift+g"@);
}

/// `g t` denotes its chords.
proof fn lemma_global_key_8()
    ensures
        spec_parse_shortcut("g t"@) == Some(seq![(false, false, false, false, "g"@), (false, false, false, false, "t"@)]),
{
    lemma_modifier_names();
    reveal_strlit("g");
    reveal_strlit("g t");
    reveal_strlit("t");
    lemma_chord_key("g"@);
    lemma_chord_key("t"@);
    lemma_shortcut_single("t"@);
    assert("g t"@ =~= "g"@ + seq![' '] + "t"@);
    lemma_shortcut_cons("g"@, "t"@);
}

/// `g Shift+t` denotes its chords.
proof fn lemma_global_key_9()
    ensures
        spec_parse_shortcut("g Shift+t"@) == Some(seq![(false, false, false, false, "g"@), (false, false, true, false, "t"@)]),
{
    lemma_modifier_names();
    reveal_strlit("Shift");
    reveal_strlit("Shift+t");
    reveal_strlit("g");
    reveal_strlit("g Shift+t");
    reveal_strlit("t");
    lemma_chord_key("g"@);
    lemma_chord_key("t"@);
    assert("Shift+t"@ =~= "Shift"@ + seq!['+'] + "t"@);
    lemma_chord_mod("Shift"@, "t"@);
    lemma_shortcut_single("Shift+t"@);
    assert("g Shift+t"@ =~= "g"@ + seq![' '] + "Shift+t"@);
    lemma_shortcut_cons("g"@, "Shift+t"@);
}

/// `Shift+h` denotes its chords.
proof fn lemma_global_key_10()
    ensures
        spec_parse_shortcut("Shift+h"@) == Some(seq![(false, false, true, false, "h"@)]),
{
    lemma_modifier_names();
    reveal_strlit("Shift");
    reveal_strlit("Shift+h");
    reveal_strlit("h");
    lemma_chord_key("h"@);
    assert("Shift+h"@ =~= "Shift"@ + seq!['+'] + "h"@);
    lemma_chord_mod("Shift"@, "h"@);
    lemma_shortcut_single("Shift+h"@);
}

/// `Shift+l` denotes its chords.
proof fn lemma_global_key_11()
    ensures
        spec_parse_shortcut("Shift+l"@) == Some(seq![(false, false, true, false, "l"@)]),
{
    lemma_modifier_names();
    reveal_strlit("Shift");
    reveal_strlit("Shift+l");
    reveal_strlit("l");
    lemma_chord_key("l"@);
    assert("Shift+l"@ =~= "Shift"@ + seq!['+'] + "l"@);
    lemma_chord_mod("Shift"@, "l"@);
    lemma_shortcut_single("Shift+l"@);
}

/// `Slash` denotes its chords.
proof fn lemma_global_key_12()
    ensures
        spec_parse_shortcut("Slash"@) == Some(seq![(false, false, false, false, "Slash"@)]),
{
    lemma_modifier_names();
    reveal_strlit("Slash");
    lemma_chord_key("Slash"@);
    lemma_shortcut_single("Slash"@);
}

/// `n` denotes its chords.
proof fn lemma_global_key_13()
    ensures
        spec_parse_shortcut("n"@) == Some(seq![(false, false, false, false, "n"@)]),
{
    lemma_modifier_names();
    reveal_strlit("n");
    lemma_chord_key("n"@);
    lemma_shortcut_single("n"@);
}

/// `Shift+n` denotes its chords.
proof fn lemma_global_key_14()
    ensures
        spec_parse_shortcut("Shift+n"@) == Some(seq![(false, false, true, false, "n"@)]),
{
    lemma_modifier_names();
    reveal_strlit("Shift");
    reveal_strlit("Shift+n");
    reveal_strlit("n");
    lemma_chord_key("n"@);
    assert("Shift+n"@ =~= "Shift"@ + seq!['+'] + "n"@);
    lemma_chord_mod("Shift"@, "n"@);
    lemma_shortcut_single("Shift+n"@);
}

/// `Cmd+n` denotes its chords.
proof fn lemma_global_key_15()
    ensures
        spec_parse_shortcut("Cmd+n"@) == Some(seq![(false, false, false, true, "n"@)]),
{
    lemma_modifier_names();
    reveal_strlit("Cmd");
    reveal_strlit("Cmd+n");
    reveal_strlit("n");
    lemma_chord_key("n"@);
    assert("Cmd+n"@ =~= "Cmd"@ + seq!['+'] + "n"@);
    lemma_chord_mod("Cmd"@, "n"@);
    lemma_shortcut_single("Cmd+n"@);
}

/// `Cmd+t` denotes its chords.
proof fn lemma_global_key_16()
    ensures
        spec_parse_shortcut("Cmd+t"@) == Some(seq![(false, false, false, true, "t"@)]),
{
    lemma_modifier_names();
    reveal_strlit("Cmd");
    reveal_strlit("Cmd+t");
    reveal_strlit("t");
    lemma_chord_key("t"@);
    assert("Cmd+t"@ =~= "Cmd"@ + seq!['+'] + "t"@);
    lemma_chord_mod("Cmd"@, "t"@);
    lemma_shortcut_single("Cmd+t"@);
}

/// `Cmd+w` denotes its chords.
proof fn lemma_global_key_17()
    ensures
        spec_parse_shortcut("Cmd+w"@) == Some(seq![(false, false, false, true, "w"@)]),
{
    lemma_modifier_names();
    reveal_strlit("Cmd");
    reveal_strlit("Cmd+w");
    reveal_strlit("w");
    lemma_chord_key("w"@);
    assert("Cmd+w"@ =~= "Cmd"@ + seq!['+'] + "w"@);
    lemma_chord_mod("Cmd"@, "w"@);
    lemma_shortcut_single("Cmd+w"@);
}

/// `Cmd+o` denotes its chords.
proof fn lemma_global_key_18()
    ensures
        spec_parse_shortcut("Cmd+o"@) == Some(seq![(false, false, false, true, "o"@)]),
{
    lemma_modifier_names();
    reveal_strlit("Cmd");
    reveal_strlit("Cmd+o");
    reveal_strlit("o");
    lemma_chord_key("o"@);
    assert("Cmd+o"@ =~= "Cmd"@ + seq!['+'] + "o"@);
    lemma_chord_mod("Cmd"@, "o"@);
    lemma_shortcut_single("Cmd+o"@);
}

/// `Cmd+q` denotes its chords.
proof fn lemma_global_key_19()
    ensures
        spec_parse_shortcut("Cmd+q"@) == Some(seq![(false, false, false, true, "q"@)]),
{
    lemma_modifier_names();
    reveal_strlit("Cmd");
    reveal_strlit("Cmd+q");
    reveal_strlit("q");
    lemma_chord_key("q"@);
    assert("Cmd+q"@ =~= "Cmd"@ + seq!['+'] + "q"@);
    lemma_chord_mod("Cmd"@, "q"@);
    lemma_shortcut_single("Cmd+q"@);
}

/// `Ctrl+w h` denotes its chords.
proof fn lemma_global_key_20()
    ensures
        spec_parse_shortcut("Ctrl+w h"@) == Some(seq![(true, false, false, false, "w"@), (false, false, false, false, "h"@)]),
{
    lemma_modifier_names();
    reveal_strlit("Ctrl");
    reveal_strlit("Ctrl+w");
    reveal_strlit("Ctrl+w h");
    reveal_strlit("h");
    reveal_strlit("w");
    lemma_chord_key("w"@);
    assert("Ctrl+w"@ =~= "Ctrl"@ + seq!['+'] + "w"@);
    lemma_chord_mod("Ctrl"@, "w"@);
    lemma_chord_key("h"@);
    lemma_shortcut_single("h"@);
    assert("Ctrl+w h"@ =~= "Ctrl+w"@ + seq![' '] + "h"@);
    lemma_shortcut_cons("Ctrl+w"@, "h"@);
}

/// `Ctrl+w l` denotes its chords.
proof fn lemma_global_key_21()
    ensures
        spec_parse_shortcut("Ctrl+w l"@) == Some(seq![(true, false, false, false, "w"@), (false, false, false, false, "l"@)]),
{
    lemma_modifier_names();
    reveal_strlit("Ctrl");
    reveal_strlit("Ctrl+w");
    reveal_strlit("Ctrl+w l");
    reveal_strlit("l");
    reveal_strlit("w");
    lemma_chord_key("w"@);
    assert("Ctrl+w"@ =~= "Ctrl"@ + seq!['+'] + "w"@);
    lemma_chord_mod("Ctrl"@, "w"@);
    lemma_chord_key("l"@);
    lemma_shortcut_single("l"@);
    assert("Ctrl+w l"@ =~= "Ctrl+w"@ + seq![' '] + "l"@);
    lemma_shortcut_cons("Ctrl+w"@, "l"@);
}

/// `Ctrl+w c` denotes its chords.
proof fn lemma_global_key_22()
    ensures
        spec_parse_shortcut("Ctrl+w c"@) == Some(seq![(true, false, false, false, "w"@), (false, false, false, false, "c"@)]),
{
    lemma_modifier_names();
    reveal_strlit("Ctrl");
    reveal_strlit("Ctrl+w");
    reveal_strlit("Ctrl+w c");
    reveal_strlit("c");
    reveal_strlit("w");
    lemma_chord_key("w"@);
    assert("Ctrl+w"@ =~= "Ctrl"@ + seq!['+'] + "w"@);
    lemma_chord_mod("Ctrl"@, "w"@);
    lemma_chord_key("c"@);
    lemma_shortcut_single("c"@);
    assert("Ctrl+w c"@ =~= "Ctrl+w"@ + seq![' '] + "c"@);
    lemma_shortcut_cons("Ctrl+w"@, "c"@);
}

/// `Shift+Slash` denotes its chords.
proof fn lemma_global_key_23()
    ensures
        spec_parse_shortcut("Shift+Slash"@) == Some(seq![(false, false, true, false, "Slash"@)]),
{
    lemma_modifier_names();
    reveal_strlit("Shift");
    reveal_strlit("Shift+Slash");
    reveal_strlit("Slash");
    lemma_chord_key("Slash"@);
    assert("Shift+Slash"@ =~= "Shift"@ + seq!['+'] + "Slash"@);
    lemma_chord_mod("Shift"@, "Slash"@);
    lemma_shortcut_single("Shift+Slash"@);
}

/// `Escape` denotes its chords.
proof fn lemma_global_key_24()
    ensures
        spec_parse_shortcut("Escape"@) == Some(seq![(false, false, false, false, "Escape"@)]),
{
    lemma_modifier_names();
    reveal_strlit("Escape");
    lemma_chord_key("Escape"@);
    lemma_shortcut_single("Escape"@);
}

/// Every entry of the `global` list names a shortcut and a known action, and no two
/// entries denote the same shortcut.
#[verifier::spinoff_prover]
proof fn lemma_global_valid()
    ensures
        spec_field_valid(spec_global()),
{
    lemma_global_key_0();
    lemma_global_key_1();
    lemma_global_key_2();
    lemma_global_key_3();
    lemma_global_key_4();
    lemma_global_key_5();
    lemma_global_key_6();
    lemma_global_key_7();
    lemma_global_key_8();
    lemma_global_key_9();
    lemma_global_key_10();
    lemma_global_key_11();
    lemma_global_key_12();
    lemma_global_key_13();
    lemma_global_key_14();
    lemma_global_key_15();
    lemma_global_key_16();
    lemma_global_key_17();
    lemma_global_key_18();
    lemma_global_key_19();
    lemma_global_key_20();
    lemma_global_key_21();
    lemma_global_key_22();
    lemma_global_key_23();
    lemma_global_key_24();
    assert(Action::AppQuit.spec_name() == "app.quit"@);
    assert(Action::Cancel.spec_name() == "cancel"@);
    assert(Action::FileOpen.spec_name() == "file.open"@);
    assert(Action::FocusContent.spec_name() == "focus.content"@);
    assert(Action::FocusLeftSidebar.spec_name() == "focus.left_sidebar"@);
    assert(Action::FocusRightSidebar.spec_name() == "focus.right_sidebar"@);
    assert(Action::HelpShowKeyboardShortcuts.spec_name() == "help.show_keyboard_shortcuts"@);
    assert(Action::HistoryBack.spec_name() == "history.back"@);
    assert(Action::HistoryForward.spec_name() == "history.forward"@);
    assert(Action::ScrollBottom.spec_name() == "scroll.bottom"@);
    assert(Action::ScrollDown.spec_name() == "scroll.down"@);
    assert(Action::ScrollHalfPageDown.spec_name() == "scroll.half_page_down"@);
    assert(Action::ScrollHalfPageUp.spec_name() == "scroll.half_page_up"@);
    assert(Action::ScrollPageDown.spec_name() == "scroll.page_down"@);
    assert(Action::ScrollPageUp.spec_name() == "scroll.page_up"@);
    assert(Action::ScrollTop.spec_name() == "scroll.top"@);
    assert(Action::ScrollUp.spec_name() == "scroll.up"@);
    assert(Action::SearchNext.spec_name() == "search.next"@);
    assert(Action::SearchOpen.spec_name() == "search.open"@);
    assert(Action::SearchPrev.spec_name() == "search.prev"@);
    assert(Action::TabClose.spec_name() == "tab.close"@);
    assert(Action::TabNew.spec_name() == "tab.new"@);
    assert(Action::TabNext.spec_name() == "tab.next"@);
    assert(Action::TabPrev.spec_name() == "tab.prev"@);
    assert(Action::WindowNew.spec_name() == "window.new"@);
    let kas = spec_global();
    let vals: Seq<Option<Seq<ChordView>>> = seq![
        Some(seq![(false, false, false, false, "j"@)]),
        Some(seq![(false, false, false, false, "k"@)]),
        Some(seq![(true, false, false, false, "f"@)]),
        Some(seq![(true, false, false, false, "b"@)]),
        Some(seq![(true, false, false, false, "d"@)]),
        Some(seq![(true, false, false, false, "u"@)]),
        Some(seq![(false, false, false, false, "g"@), (false, false, false, false, "g"@)]),
        Some(seq![(false, false, true, false, "g"@)]),
        Some(seq![(false, false, false, false, "g"@), (false, false, false, false, "t"@)]),
        Some(seq![(false, false, false, false, "g"@), (false, false, true, false, "t"@)]),
        Some(seq![(false, false, true, false, "h"@)]),
        Some(seq![(false, false, true, false, "l"@)]),
        Some(seq![(false, false, false, false, "Slash"@)]),
        Some(seq![(false, false, false, false, "n"@)]),
        Some(seq![(false, false, true, false, "n"@)]),
        Some(seq![(false, false, false, true, "n"@)]),
        Some(seq![(false, false, false, true, "t"@)]),
        Some(seq![(false, false, false, true, "w"@)]),
        Some(seq![(false, false, false, true, "o"@)]),
        Some(seq![(false, false, false, true, "q"@)]),
        Some(seq![(true, false, false, false, "w"@), (false, false, false, false, "h"@)]),
        Some(seq![(true, false, false, false, "w"@), (false, false, false, false, "l"@)]),
        Some(seq![(true, false, false, false, "w"@), (false, false, false, false, "c"@)]),
        Some(seq![(false, false, true, false, "Slash"@)]),
        Some(seq![(false, false, false, false, "Escape"@)]),
    ];
    assert forall|i: int| 0 <= i < kas.len() implies #[trigger] spec_parse_shortcut(kas[i].0) == vals[i]
        && (#[trigger] spec_parse_action(kas[i].1)) is Some by {
        if i == 0 {
            assert(kas[0] == ("j"@, "scroll.down"@));
        } else if i == 1 {
            assert(kas[1] == ("k"@, "scroll.up"@));
        } else if i == 2 {
            assert(kas[2] == ("Ctrl+f"@, "scroll.page_down"@));
        } else if i == 3 {
            assert(kas[3] == ("Ctrl+b"@, "scroll.page_up"@));
        } else if i == 4 {
            assert(kas[4] == ("Ctrl+d"@, "scroll.half_page_down"@));
        } else if i == 5 {
            assert(kas[5] == ("Ctrl+u"@, "scroll.half_page_up"@));
        } else if i == 6 {
            assert(kas[6] == ("g g"@, "scroll.top"@));
        } else if i == 7 {
            assert(kas[7] == ("Shift+g"@, "scroll.bottom"@));
        } else if i == 8 {
            assert(kas[8] == ("g t"@, "tab.next"@));
        } else if i == 9 {
            assert(kas[9] == ("g Shift+t"@, "tab.prev"@));
        } else if i == 10 {
            assert(kas[10] == ("Shift+h"@, "history.back"@));
        } else if i == 11 {
            assert(kas[11] == ("Shift+l"@, "history.forward"@));
        } else if i == 12 {
            assert(kas[12] == ("Slash"@, "search.open"@));
        } else if i == 13 {
            assert(kas[13] == ("n"@, "search.next"@));
        } else if i == 14 {
            assert(kas[14] == ("Shift+n"@, "search.prev"@));
        } else if i == 15 {
            assert(kas[15] == ("Cmd+n"@, "window.new"@));
        } else if i == 16 {
            assert(kas[16] == ("Cmd+t"@, "tab.new"@));
        } else if i == 17 {
            assert(kas[17] == ("Cmd+w"@, "tab.close"@));
        } else if i == 18 {
            assert(kas[18] == ("Cmd+o"@, "file.open"@));
        } else if i == 19 {
            assert(kas[19] == ("Cmd+q"@, "app.quit"@));
        } else if i == 20 {
            assert(kas[20] == ("Ctrl+w h"@, "focus.left_sidebar"@));
        } else if i == 21 {
            assert(kas[21] == ("Ctrl+w l"@, "focus.right_sidebar"@));
        } else if i == 22 {
            assert(kas[22] == ("Ctrl+w c"@, "focus.content"@));
        } else if i == 23 {
            assert(kas[23] == ("Shift+Slash"@, "help.show_keyboard_shortcuts"@));
        } else if i == 24 {
            assert(kas[24] == ("Escape"@, "cancel"@));
        }
    }
    reveal_strlit("Escape");
    reveal_strlit("Slash");
    reveal_strlit("b");
    reveal_strlit("c");
    reveal_strlit("d");
    reveal_strlit("f");
    reveal_strlit("g");
    reveal_strlit("h");
    reveal_strlit("j");
    reveal_strlit("k");
    reveal_strlit("l");
    reveal_strlit("n");
    reveal_strlit("o");
    reveal_strlit("q");
    reveal_strlit("t");
    reveal_strlit("u");
    reveal_strlit("w");
    assert(vals[0]->Some_0[0].4[0] != vals[1]->Some_0[0].4[0]);
    assert(vals[0]->Some_0[0].0 != vals[2]->Some_0[0].0);
    assert(vals[0]->Some_0[0].0 != vals[3]->Some_0[0].0);
    assert(vals[0]->Some_0[0].0 != vals[4]->Some_0[0].0);
    assert(vals[0]->Some_0[0].0 != vals[5]->Some_0[0].0);
    assert(vals[0]->Some_0.len() != vals[6]->Some_0.len());
    assert(vals[0]->Some_0[0].2 != vals[7]->Some_0[0].2);
    assert(vals[0]->Some_0.len() != vals[8]->Some_0.len());
    assert(vals[0]->Some_0.len() != vals[9]->Some_0.len());
    assert(vals[0]->Some_0[0].2 != vals[10]->Some_0[0].2);
    assert(vals[0]->Some_0[0].2 != vals[11]->Some_0[0].2);
    assert(vals[0]->Some_0[0].4.len() != vals[12]->Some_0[0].4.len());
    assert(vals[0]->Some_0[0].4[0] != vals[13]->Some_0[0].4[0]);
    assert(vals[0]->Some_0[0].2 != vals[14]->Some_0[0].2);
    assert(vals[0]->Some_0[0].3 != vals[15]->Some_0[0].3);
    assert(vals[0]->Some_0[0].3 != vals[16]->Some_0[0].3);
    assert(vals[0]->Some_0[0].3 != vals[17]->Some_0[0].3);
    assert(vals[0]->Some_0[0].3 != vals[18]->Some_0[0].3);
    assert(vals[0]->Some_0[0].3 != vals[19]->Some_0[0].3);
    assert(vals[0]->Some_0.len() != vals[20]->Some_0.len());
    assert(vals[0]->Some_0.len() != vals[21]->Some_0.len());
    assert(vals[0]->Some_0.len() != vals[22]->Some_0.len());
    assert(vals[0]->Some_0[0].2 != vals[23]->Some_0[0].2);
    assert(vals[0]->Some_0[0].4.len() != vals[24]->Some_0[0].4.len());
    assert(vals[1]->Some_0[0].0 != vals[2]->Some_0[0].0);
    assert(vals[1]->Some_0[0].0 != vals[3]->Some_0[0].0);
    assert(vals[1]->Some_0[0].0 != vals[4]->Some_0[0].0);
    assert(vals[1]->Some_0[0].0 != vals[5]->Some_0[0].0);
    assert(vals[1]->Some_0.len() != vals[6]->Some_0.len());
    assert(vals[1]->Some_0[0].2 != vals[7]->Some_0[0].2);
    assert(vals[1]->Some_0.len() != vals[8]->Some_0.len());
    assert(vals[1]->Some_0.len() != vals[9]->Some_0.len());
    assert(vals[1]->Some_0[0].2 != vals[10]->Some_0[0].2);
    assert(vals[1]->Some_0[0].2 != vals[11]->Some_0[0].2);
    assert(vals[1]->Some_0[0].4.len() != vals[12]->Some_0[0].4.len());
    assert(vals[1]->Some_0[0].4[0] != vals[13]->Some_0[0].4[0]);
    assert(vals[1]->Some_0[0].2 != vals[14]->Some_0[0].2);
    assert(vals[1]->Some_0[0].3 != vals[15]->Some_0[0].3);
    assert(vals[1]->Some_0[0].3 != vals[16]->Some_0[0].3);
    assert(vals[1]->Some_0[0].3 != vals[17]->Some_0[0].3);
    assert(vals[1]->Some_0[0].3 != vals[18]->Some_0[0].3);
    assert(vals[1]->Some_0[0].3 != vals[19]->Some_0[0].3);
    assert(vals[1]->Some_0.len() != vals[20]->Some_0.len());
    assert(vals[1]->Some_0.len() != vals[21]->Some_0.len());
    assert(vals[1]->Some_0.len() != vals[22]->Some_0.len());
    assert(vals[1]->Some_0[0].2 != vals[23]->Some_0[0].2);
    assert(vals[1]->Some_0[0].4.len() != vals[24]->Some_0[0].4.len());
    assert(vals[2]->Some_0[0].4[0] != vals[3]->Some_0[0].4[0]);
    assert(vals[2]->Some_0[0].4[0] != vals[4]->Some_0[0].4[0]);
    assert(vals[2]->Some_0[0].4[0] != vals[5]->Some_0[0].4[0]);
    assert(vals[2]->Some_0.len() != vals[6]->Some_0.len());
    assert(vals[2]->Some_0[0].0 != vals[7]->Some_0[0].0);
    assert(vals[2]->Some_0.len() != vals[8]->Some_0.len());
    assert(vals[2]->Some_0.len() != vals[9]->Some_0.len());
    assert(vals[2]->Some_0[0].0 != vals[10]->Some_0[0].0);
    assert(vals[2]->Some_0[0].0 != vals[11]->Some_0[0].0);
    assert(vals[2]->Some_0[0].0 != vals[12]->Some_0[0].0);
    assert(vals[2]->Some_0[0].0 != vals[13]->Some_0[0].0);
    assert(vals[2]->Some_0[0].0 != vals[14]->Some_0[0].0);
    assert(vals[2]->Some_0[0].0 != vals[15]->Some_0[0].0);
    assert(vals[2]->Some_0[0].0 != vals[16]->Some_0[0].0);
    assert(vals[2]->Some_0[0].0 != vals[17]->Some_0[0].0);
    assert(vals[2]->Some_0[0].0 != vals[18]->Some_0[0].0);
    assert(vals[2]->Some_0[0].0 != vals[19]->Some_0[0].0);
    assert(vals[2]->Some_0.len() != vals[20]->Some_0.len());
    assert(vals[2]->Some_0.len() != vals[21]->Some_0.len());
    assert(vals[2]->Some_0.len() != vals[22]->Some_0.len());
    assert(vals[2]->Some_0[0].0 != vals[23]->Some_0[0].0);
    assert(vals[2]->Some_0[0].0 != vals[24]->Some_0[0].0);
    assert(vals[3]->Some_0[0].4[0] != vals[4]->Some_0[0].4[0]);
    assert(vals[3]->Some_0[0].4[0] != vals[5]->Some_0[0].4[0]);
    assert(vals[3]->Some_0.len() != vals[6]->Some_0.len());
    assert(vals[3]->Some_0[0].0 != vals[7]->Some_0[0].0);
    assert(vals[3]->Some_0.len() != vals[8]->Some_0.len());
    assert(vals[3]->Some_0.len() != vals[9]->Some_0.len());
    assert(vals[3]->Some_0[0].0 != vals[10]->Some_0[0].0);
    assert(vals[3]->Some_0[0].0 != vals[11]->Some_0[0].0);
    assert(vals[3]->Some_0[0].0 != vals[12]->Some_0[0].0);
    assert(vals[3]->Some_0[0].0 != vals[13]->Some_0[0].0);
    assert(vals[3]->Some_0[0].0 != vals[14]->Some_0[0].0);
    assert(vals[3]->Some_0[0].0 != vals[15]->Some_0[0].0);
    assert(vals[3]->Some_0[0].0 != vals[16]->Some_0[0].0);
    assert(vals[3]->Some_0[0].0 != vals[17]->Some_0[0].0);
    assert(vals[3]->Some_0[0].0 != vals[18]->Some_0[0].0);
    assert(vals[3]->Some_0[0].0 != vals[19]->Some_0[0].0);
    assert(vals[3]->Some_0.len() != vals[20]->Some_0.len());
    assert(vals[3]->Some_0.len() != vals[21]->Some_0.len());
    assert(vals[3]->Some_0.len() != vals[22]->Some_0.len());
    assert(vals[3]->Some_0[0].0 != vals[23]->Some_0[0].0);
    assert(vals[3]->Some_0[0].0 != vals[24]->Some_0[0].0);
    assert(vals[4]->Some_0[0].4[0] != vals[5]->Some_0[0].4[0]);
    assert(vals[4]->Some_0.len() != vals[6]->Some_0.len());
    assert(vals[4]->Some_0[0].0 != vals[7]->Some_0[0].0);
    assert(vals[4]->Some_0.len() != vals[8]->Some_0.len());
    assert(vals[4]->Some_0.len() != vals[9]->Some_0.len());
    assert(vals[4]->Some_0[0].0 != vals[10]->Some_0[0].0);
    assert(vals[4]->Some_0[0].0 != vals[11]->Some_0[0].0);
    assert(vals[4]->Some_0[0].0 != vals[12]->Some_0[0].0);
    assert(vals[4]->Some_0[0].0 != vals[13]->Some_0[0].0);
    assert(vals[4]->Some_0[0].0 != vals[14]->Some_0[0].0);
    assert(vals[4]->Some_0[0].0 != vals[15]->Some_0[0].0);
    assert(vals[4]->Some_0[0].0 != vals[16]->Some_0[0].0);
    assert(vals[4]->Some_0[0].0 != vals[17]->Some_0[0].0);
    assert(vals[4]->Some_0[0].0 != vals[18]->Some_0[0].0);
    assert(vals[4]->Some_0[0].0 != vals[19]->Some_0[0].0);
    assert(vals[4]->Some_0.len() != vals[20]->Some_0.len());
    assert(vals[4]->Some_0.len() != vals[21]->Some_0.len());
    assert(vals[4]->Some_0.len() != vals[22]->Some_0.len());
    assert(vals[4]->Some_0[0].0 != vals[23]->Some_0[0].0);
    assert(vals[4]->Some_0[0].0 != vals[24]->Some_0[0].0);
    assert(vals[5]->Some_0.len() != vals[6]->Some_0.len());
    assert(vals[5]->Some_0[0].0 != vals[7]->Some_0[0].0);
    assert(vals[5]->Some_0.len() != vals[8]->Some_0.len());
    assert(vals[5]->Some_0.len() != vals[9]->Some_0.len());
    assert(vals[5]->Some_0[0].0 != vals[10]->Some_0[0].0);
    assert(vals[5]->Some_0[0].0 != vals[11]->Some_0[0].0);
    assert(vals[5]->Some_0[0].0 != vals[12]->Some_0[0].0);
    assert(vals[5]->Some_0[0].0 != vals[13]->Some_0[0].0);
    assert(vals[5]->Some_0[0].0 != vals[14]->Some_0[0].0);
    assert(vals[5]->Some_0[0].0 != vals[15]->Some_0[0].0);
    assert(vals[5]->Some_0[0].0 != vals[16]->Some_0[0].0);
    assert(vals[5]->Some_0[0].0 != vals[17]->Some_0[0].0);
    assert(vals[5]->Some_0[0].0 != vals[18]->Some_0[0].0);
    assert(vals[5]->Some_0[0].0 != vals[19]->Some_0[0].0);
    assert(vals[5]->Some_0.len() != vals[20]->Some_0.len());
    assert(vals[5]->Some_0.len() != vals[21]->Some_0.len());
    assert(vals[5]->Some_0.len() != vals[22]->Some_0.len());
    assert(vals[5]->Some_0[0].0 != vals[23]->Some_0[0].0);
    assert(vals[5]->Some_0[0].0 != vals[24]->Some_0[0].0);
    assert(vals[6]->Some_0.len() != vals[7]->Some_0.len());
    assert(vals[6]->Some_0[1].4[0] != vals[8]->Some_0[1].4[0]);
    assert(vals[6]->Some_0[1].2 != vals[9]->Some_0[1].2);
    assert(vals[6]->Some_0.len() != vals[10]->Some_0.len());
    assert(vals[6]->Some_0.len() != vals[11]->Some_0.len());
    assert(vals[6]->Some_0.len() != vals[12]->Some_0.len());
    assert(vals[6]->Some_0.len() != vals[13]->Some_0.len());
    assert(vals[6]->Some_0.len() != vals[14]->Some_0.len());
    assert(vals[6]->Some_0.len() != vals[15]->Some_0.len());
    assert(vals[6]->Some_0.len() != vals[16]->Some_0.len());
    assert(vals[6]->Some_0.len() != vals[17]->Some_0.len());
    assert(vals[6]->Some_0.len() != vals[18]->Some_0.len());
    assert(vals[6]->Some_0.len() != vals[19]->Some_0.len());
    assert(vals[6]->Some_0[0].0 != vals[20]->Some_0[0].0);
    assert(vals[6]->Some_0[0].0 != vals[21]->Some_0[0].0);
    assert(vals[6]->Some_0[0].0 != vals[22]->Some_0[0].0);
    assert(vals[6]->Some_0.len() != vals[23]->Some_0.len());
    assert(vals[6]->Some_0.len() != vals[24]->Some_0.len());
    assert(vals[7]->Some_0.len() != vals[8]->Some_0.len());
    assert(vals[7]->Some_0.len() != vals[9]->Some_0.len());
    assert(vals[7]->Some_0[0].4[0] != vals[10]->Some_0[0].4[0]);
    assert(vals[7]->Some_0[0].4[0] != vals[11]->Some_0[0].4[0]);
    assert(vals[7]->Some_0[0].2 != vals[12]->Some_0[0].2);
    assert(vals[7]->Some_0[0].2 != vals[13]->Some_0[0].2);
    assert(vals[7]->Some_0[0].4[0] != vals[14]->Some_0[0].4[0]);
    assert(vals[7]->Some_0[0].2 != vals[15]->Some_0[0].2);
    assert(vals[7]->Some_0[0].2 != vals[16]->Some_0[0].2);
    assert(vals[7]->Some_0[0].2 != vals[17]->Some_0[0].2);
    assert(vals[7]->Some_0[0].2 != vals[18]->Some_0[0].2);
    assert(vals[7]->Some_0[0].2 != vals[19]->Some_0[0].2);
    assert(vals[7]->Some_0.len() != vals[20]->Some_0.len());
    assert(vals[7]->Some_0.len() != vals[21]->Some_0.len());
    assert(vals[7]->Some_0.len() != vals[22]->Some_0.len());
    assert(vals[7]->Some_0[0].4.len() != vals[23]->Some_0[0].4.len());
    assert(vals[7]->Some_0[0].2 != vals[24]->Some_0[0].2);
    assert(vals[8]->Some_0[1].2 != vals[9]->Some_0[1].2);
    assert(vals[8]->Some_0.len() != vals[10]->Some_0.len());
    assert(vals[8]->Some_0.len() != vals[11]->Some_0.len());
    assert(vals[8]->Some_0.len() != vals[12]->Some_0.len());
    assert(vals[8]->Some_0.len() != vals[13]->Some_0.len());
    assert(vals[8]->Some_0.len() != vals[14]->Some_0.len());
    assert(vals[8]->Some_0.len() != vals[15]->Some_0.len());
    assert(vals[8]->Some_0.len() != vals[16]->Some_0.len());
    assert(vals[8]->Some_0.len() != vals[17]->Some_0.len());
    assert(vals[8]->Some_0.len() != vals[18]->Some_0.len());
    assert(vals[8]->Some_0.len() != vals[19]->Some_0.len());
    assert(vals[8]->Some_0[0].0 != vals[20]->Some_0[0].0);
    assert(vals[8]->Some_0[0].0 != vals[21]->Some_0[0].0);
    assert(vals[8]->Some_0[0].0 != vals[22]->Some_0[0].0);
    assert(vals[8]->Some_0.len() != vals[23]->Some_0.len());
    assert(vals[8]->Some_0.len() != vals[24]->Some_0.len());
    assert(vals[9]->Some_0.len() != vals[10]->Some_0.len());
    assert(vals[9]->Some_0.len() != vals[11]->Some_0.len());
    assert(vals[9]->Some_0.len() != vals[12]->Some_0.len());
    assert(vals[9]->Some_0.len() != vals[13]->Some_0.len());
    assert(vals[9]->Some_0.len() != vals[14]->Some_0.len());
    assert(vals[9]->Some_0.len() != vals[15]->Some_0.len());
    assert(vals[9]->Some_0.len() != vals[16]->Some_0.len());
    assert(vals[9]->Some_0.len() != vals[17]->Some_0.len());
    assert(vals[9]->Some_0.len() != vals[18]->Some_0.len());
    assert(vals[9]->Some_0.len() != vals[19]->Some_0.len());
    assert(vals[9]->Some_0[0].0 != vals[20]->Some_0[0].0);
    assert(vals[9]->Some_0[0].0 != vals[21]->Some_0[0].0);
    assert(vals[9]->Some_0[0].0 != vals[22]->Some_0[0].0);
    assert(vals[9]->Some_0.len() != vals[23]->Some_0.len());
    assert(vals[9]->Some_0.len() != vals[24]->Some_0.len());
    assert(vals[10]->Some_0[0].4[0] != vals[11]->Some_0[0].4[0]);
    assert(vals[10]->Some_0[0].2 != vals[12]->Some_0[0].2);
    assert(vals[10]->Some_0[0].2 != vals[13]->Some_0[0].2);
    assert(vals[10]->Some_0[0].4[0] != vals[14]->Some_0[0].4[0]);
    assert(vals[10]->Some_0[0].2 != vals[15]->Some_0[0].2);
    assert(vals[10]->Some_0[0].2 != vals[16]->Some_0[0].2);
    assert(vals[10]->Some_0[0].2 != vals[17]->Some_0[0].2);
    assert(vals[10]->Some_0[0].2 != vals[18]->Some_0[0].2);
    assert(vals[10]->Some_0[0].2 != vals[19]->Some_0[0].2);
    assert(vals[10]->Some_0.len() != vals[20]->Some_0.len());
    assert(vals[10]->Some_0.len() != vals[21]->Some_0.len());
    assert(vals[10]->Some_0.len() != vals[22]->Some_0.len());
    assert(vals[10]->Some_0[0].4.len() != vals[23]->Some_0[0].4.len());
    assert(vals[10]->Some_0[0].2 != vals[24]->Some_0[0].2);
    assert(vals[11]->Some_0[0].2 != vals[12]->Some_0[0].2);
    assert(vals[11]->Some_0[0].2 != vals[13]->Some_0[0].2);
    assert(vals[11]->Some_0[0].4[0] != vals[14]->Some_0[0].4[0]);
    assert(vals[11]->Some_0[0].2 != vals[15]->Some_0[0].2);
    assert(vals[11]->Some_0[0].2 != vals[16]->Some_0[0].2);
    assert(vals[11]->Some_0[0].2 != vals[17]->Some_0[0].2);
    assert(vals[11]->Some_0[0].2 != vals[18]->Some_0[0].2);
    assert(vals[11]->Some_0[0].2 != vals[19]->Some_0[0].2);
    assert(vals[11]->Some_0.len() != vals[20]->Some_0.len());
    assert(vals[11]->Some_0.len() != vals[21]->Some_0.len());
    assert(vals[11]->Some_0.len() != vals[22]->Some_0.len());
    assert(vals[11]->Some_0[0].4.len() != vals[23]->Some_0[0].4.len());
    assert(vals[11]->Some_0[0].2 != vals[24]->Some_0[0].2);
    assert(vals[12]->Some_0[0].4.len() != vals[13]->Some_0[0].4.len());
    assert(vals[12]->Some_0[0].2 != vals[14]->Some_0[0].2);
    assert(vals[12]->Some_0[0].3 != vals[15]->Some_0[0].3);
    assert(vals[12]->Some_0[0].3 != vals[16]->Some_0[0].3);
    assert(vals[12]->Some_0[0].3 != vals[17]->Some_0[0].3);
    assert(vals[12]->Some_0[0].3 != vals[18]->Some_0[0].3);
    assert(vals[12]->Some_0[0].3 != vals[19]->Some_0[0].3);
    assert(vals[12]->Some_0.len() != vals[20]->Some_0.len());
    assert(vals[12]->Some_0.len() != vals[21]->Some_0.len());
    assert(vals[12]->Some_0.len() != vals[22]->Some_0.len());
    assert(vals[12]->Some_0[0].2 != vals[23]->Some_0[0].2);
    assert(vals[12]->Some_0[0].4.len() != vals[24]->Some_0[0].4.len());
    assert(vals[13]->Some_0[0].2 != vals[14]->Some_0[0].2);
    assert(vals[13]->Some_0[0].3 != vals[15]->Some_0[0].3);
    assert(vals[13]->Some_0[0].3 != vals[16]->Some_0[0].3);
    assert(vals[13]->Some_0[0].3 != vals[17]->Some_0[0].3);
    assert(vals[13]->Some_0[0].3 != vals[18]->Some_0[0].3);
    assert(vals[13]->Some_0[0].3 != vals[19]->Some_0[0].3);
    assert(vals[13]->Some_0.len() != vals[20]->Some_0.len());
    assert(vals[13]->Some_0.len() != vals[21]->Some_0.len());
    assert(vals[13]->Some_0.len() != vals[22]->Some_0.len());
    assert(vals[13]->Some_0[0].2 != vals[23]->Some_0[0].2);
    assert(vals[13]->Some_0[0].4.len() != vals[24]->Some_0[0].4.len());
    assert(vals[14]->Some_0[0].2 != vals[15]->Some_0[0].2);
    assert(vals[14]->Some_0[0].2 != vals[16]->Some_0[0].2);
    assert(vals[14]->Some_0[0].2 != vals[17]->Some_0[0].2);
    assert(vals[14]->Some_0[0].2 != vals[18]->Some_0[0].2);
    assert(vals[14]->Some_0[0].2 != vals[19]->Some_0[0].2);
    assert(vals[14]->Some_0.len() != vals[20]->Some_0.len());
    assert(vals[14]->Some_0.len() != vals[21]->Some_0.len());
    assert(vals[14]->Some_0.len() != vals[22]->Some_0.len());
    assert(vals[14]->Some_0[0].4.len() != vals[23]->Some_0[0].4.len());
    assert(vals[14]->Some_0[0].2 != vals[24]->Some_0[0].2);
    assert(vals[15]->Some_0[0].4[0] != vals[16]->Some_0[0].4[0]);
    assert(vals[15]->Some_0[0].4[0] != vals[17]->Some_0[0].4[0]);
    assert(vals[15]->Some_0[0].4[0] != vals[18]->Some_0[0].4[0]);
    assert(vals[15]->Some_0[0].4[0] != vals[19]->Some_0[0].4[0]);
    assert(vals[15]->Some_0.len() != vals[20]->Some_0.len());
    assert(vals[15]->Some_0.len() != vals[21]->Some_0.len());
    assert(vals[15]->Some_0.len() != vals[22]->Some_0.len());
    assert(vals[15]->Some_0[0].2 != vals[23]->Some_0[0].2);
    assert(vals[15]->Some_0[0].3 != vals[24]->Some_0[0].3);
    assert(vals[16]->Some_0[0].4[0] != vals[17]->Some_0[0].4[0]);
    assert(vals[16]->Some_0[0].4[0] != vals[18]->Some_0[0].4[0]);
    assert(vals[16]->Some_0[0].4[0] != vals[19]->Some_0[0].4[0]);
    assert(vals[16]->Some_0.len() != vals[20]->Some_0.len());
    assert(vals[16]->Some_0.len() != vals[21]->Some_0.len());
    assert(vals[16]->Some_0.len() != vals[22]->Some_0.len());
    assert(vals[16]->Some_0[0].2 != vals[23]->Some_0[0].2);
    assert(vals[16]->Some_0[0].3 != vals[24]->Some_0[0].3);
    assert(vals[17]->Some_0[0].4[0] != vals[18]->Some_0[0].4[0]);
    assert(vals[17]->Some_0[0].4[0] != vals[19]->Some_0[0].4[0]);
    assert(vals[17]->Some_0.len() != vals[20]->Some_0.len());
    assert(vals[17]->Some_0.len() != vals[21]->Some_0.len());
    assert(vals[17]->Some_0.len() != vals[22]->Some_0.len());
    assert(vals[17]->Some_0[0].2 != vals[23]->Some_0[0].2);
    assert(vals[17]->Some_0[0].3 != vals[24]->Some_0[0].3);
    assert(vals[18]->Some_0[0].4[0] != vals[19]->Some_0[0].4[0]);
    assert(vals[18]->Some_0.len() != vals[20]->Some_0.len());
    assert(vals[18]->Some_0.len() != vals[21]->Some_0.len());
    assert(vals[18]->Some_0.len() != vals[22]->Some_0.len());
    assert(vals[18]->Some_0[0].2 != vals[23]->Some_0[0].2);
    assert(vals[18]->Some_0[0].3 != vals[24]->Some_0[0].3);
    assert(vals[19]->Some_0.len() != vals[20]->Some_0.len());
    assert(vals[19]->Some_0.len() != vals[21]->Some_0.len());
    assert(vals[19]->Some_0.len() != vals[22]->Some_0.len());
    assert(vals[19]->Some_0[0].2 != vals[23]->Some_0[0].2);
    assert(vals[19]->Some_0[0].3 != vals[24]->Some_0[0].3);
    assert(vals[20]->Some_0[1].4[0] != vals[21]->Some_0[1].4[0]);
    assert(vals[20]->Some_0[1].4[0] != vals[22]->Some_0[1].4[0]);
    assert(vals[20]->Some_0.len() != vals[23]->Some_0.len());
    assert(vals[20]->Some_0.len() != vals[24]->Some_0.len());
    assert(vals[21]->Some_0[1].4[0] != vals[22]->Some_0[1].4[0]);
    assert(vals[21]->Some_0.len() != vals[23]->Some_0.len());
    assert(vals[21]->Some_0.len() != vals[24]->Some_0.len());
    assert(vals[22]->Some_0.len() != vals[23]->Some_0.len());
    assert(vals[22]->Some_0.len() != vals[24]->Some_0.len());
    assert(vals[23]->Some_0[0].2 != vals[24]->Some_0[0].2);
    assert forall|i: int, j: int| 0 <= i < j < kas.len() implies #[trigger] spec_parse_shortcut(kas[i].0)
        != #[trigger] spec_parse_shortcut(kas[j].0) by {
        assert(i == 0 || i == 1 || i == 2 || i == 3 || i == 4 || i == 5 || i == 6 || i == 7 || i == 8 || i == 9 || i == 10 || i == 11 || i == 12 || i == 13 || i == 14 || i == 15 || i == 16 || i == 17 || i == 18 || i == 19 || i == 20 || i == 21 || i == 22 || i == 23 || i == 24);
        assert(j == 0 || j == 1 || j == 2 || j == 3 || j == 4 || j == 5 || j == 6 || j == 7 || j == 8 || j == 9 || j == 10 || j == 11 || j == 12 || j == 13 || j == 14 || j == 15 || j == 16 || j == 17 || j == 18 || j == 19 || j == 20 || j == 21 || j == 22 || j == 23 || j == 24);
    }
}

/// `Ctrl+j` denotes its chords.
proof fn lemma_content_key_0()
    ensures
        spec_parse_shortcut("Ctrl+j"@) == Some(seq![(true, false, false, false, "j"@)]),
{
    lemma_modifier_names();
    reveal_strlit("Ctrl");
    reveal_strlit("Ctrl+j");
    reveal_strlit("j");
    lemma_chord_key("j"@);
    assert("Ctrl+j"@ =~= "Ctrl"@ + seq!['+'] + "j"@);
    lemma_chord_mod("Ctrl"@, "j"@);
    lemma_shortcut_single("Ctrl+j"@);
}

/// `Ctrl+k` denotes its chords.
proof fn lemma_content_key_1()
    ensures
        spec_parse_shortcut("Ctrl+k"@) == Some(seq![(true, false, false, false, "k"@)]),
{
    lemma_modifier_names();
    reveal_strlit("Ctrl");
    reveal_strlit("Ctrl+k");
    reveal_strlit("k");
    lemma_chord_key("k"@);
    assert("Ctrl+k"@ =~= "Ctrl"@ + seq!['+'] + "k"@);
    lemma_chord_mod("Ctrl"@, "k"@);
    lemma_shortcut_single("Ctrl+k"@);
}

/// `Shift+BracketRight` denotes its chords.
proof fn lemma_content_key_2()
    ensures
        spec_parse_shortcut("Shift+BracketRight"@) == Some(seq![(false, false, true, false, "BracketRight"@)]),
{
    lemma_modifier_names();
    reveal_strlit("BracketRight");
    reveal_strlit("Shift");
    reveal_strlit("Shift+BracketRight");
    lemma_chord_key("BracketRight"@);
    assert("Shift+BracketRight"@ =~= "Shift"@ + seq!['+'] + "BracketRight"@);
    lemma_chord_mod("Shift"@, "BracketRight"@);
    lemma_shortcut_single("Shift+BracketRight"@);
}

/// `Shift+BracketLeft` denotes its chords.
proof fn lemma_content_key_3()
    ensures
        spec_parse_shortcut("Shift+BracketLeft"@) == Some(seq![(false, false, true, false, "BracketLeft"@)]),
{
    lemma_modifier_names();
    reveal_strlit("BracketLeft");
    reveal_strlit("Shift");
    reveal_strlit("Shift+BracketLeft");
    lemma_chord_key("BracketLeft"@);
    assert("Shift+BracketLeft"@ =~= "Shift"@ + seq!['+'] + "BracketLeft"@);
    lemma_chord_mod("Shift"@, "BracketLeft"@);
    lemma_shortcut_single("Shift+BracketLeft"@);
}

/// Every entry of the `content` list names a shortcut and a known action, and no two
/// entries denote the same shortcut.
#[verifier::spinoff_prover]
proof fn lemma_content_valid()
    ensures
        spec_field_valid(spec_content()),
{
    lemma_content_key_0();
    lemma_content_key_1();
    lemma_content_key_2();
    lemma_content_key_3();
    assert(Action::ContentNext.spec_name() == "content.next"@);
    assert(Action::ContentNextHeading.spec_name() == "content.next_heading"@);
    assert(Action::ContentPrev.spec_name() == "content.prev"@);
    assert(Action::ContentPrevHeading.spec_name() == "content.prev_heading"@);
    let kas = spec_content();
    let vals: Seq<Option<Seq<ChordView>>> = seq![
        Some(seq![(true, false, false, false, "j"@)]),
        Some(seq![(true, false, false, false, "k"@)]),
        Some(seq![(false, false, true, false, "BracketRight"@)]),
        Some(seq![(false, false, true, false, "BracketLeft"@)]),
    ];
    assert forall|i: int| 0 <= i < kas.len() implies #[trigger] spec_parse_shortcut(kas[i].0) == vals[i]
        && (#[trigger] spec_parse_action(kas[i].1)) is Some by {
        if i == 0 {
            assert(kas[0] == ("Ctrl+j"@, "content.next"@));
        } else if i == 1 {
            assert(kas[1] == ("Ctrl+k"@, "content.prev"@));
        } else if i == 2 {
            assert(kas[2] == ("Shift+BracketRight"@, "content.next_heading"@));
        } else if i == 3 {
            assert(kas[3] == ("Shift+BracketLeft"@, "content.prev_heading"@));
        }
    }
    reveal_strlit("BracketLeft");
    reveal_strlit("BracketRight");
    reveal_strlit("j");
    reveal_strlit("k");
    assert(vals[0]->Some_0[0].4[0] != vals[1]->Some_0[0].4[0]);
    assert(vals[0]->Some_0[0].0 != vals[2]->Some_0[0].0);
    assert(vals[0]->Some_0[0].0 != vals[3]->Some_0[0].0);
    assert(vals[1]->Some_0[0].0 != vals[2]->Some_0[0].0);
    assert(vals[1]->Some_0[0].0 != vals[3]->Some_0[0].0);
    assert(vals[2]->Some_0[0].4.len() != vals[3]->Some_0[0].4.len());
    assert forall|i: int, j: int| 0 <= i < j < kas.len() implies #[trigger] spec_parse_shortcut(kas[i].0)
        != #[trigger] spec_parse_shortcut(kas[j].0) by {
        assert(i == 0 || i == 1 || i == 2 || i == 3);
        assert(j == 0 || j == 1 || j == 2 || j == 3);
    }
}

/// `l` denotes its chords.
proof fn lemma_sidebar_key_0()
    ensures
        spec_parse_shortcut("l"@) == Some(seq![(false, false, false, false, "l"@)]),
{
    lemma_modifier_names();
    reveal_strlit("l");
    lemma_chord_key("l"@);
    lemma_shortcut_single("l"@);
}

/// `o` denotes its chords.
proof fn lemma_sidebar_key_1()
    ensures
        spec_parse_shortcut("o"@) == Some(seq![(false, false, false, false, "o"@)]),
{
    lemma_modifier_names();
    reveal_strlit("o");
    lemma_chord_key("o"@);
    lemma_shortcut_single("o"@);
}

/// `h` denotes its chords.
proof fn lemma_sidebar_key_2()
    ensures
        spec_parse_shortcut("h"@) == Some(seq![(false, false, false, false, "h"@)]),
{
    lemma_modifier_names();
    reveal_strlit("h");
    lemma_chord_key("h"@);
    lemma_shortcut_single("h"@);
}

/// `Minus` denotes its chords.
proof fn lemma_sidebar_key_3()
    ensures
        spec_parse_shortcut("Minus"@) == Some(seq![(false, false, false, false, "Minus"@)]),
{
    lemma_modifier_names();
    reveal_strlit("Minus");
    lemma_chord_key("Minus"@);
    lemma_shortcut_single("Minus"@);
}

/// Every entry of the `sidebar` list names a shortcut and a known action, and no two
/// entries denote the same shortcut.
#[verifier::spinoff_prover]
proof fn lemma_sidebar_valid()
    ensures
        spec_field_valid(spec_sidebar()),
{
    lemma_sidebar_key_0();
    lemma_sidebar_key_1();
    lemma_sidebar_key_2();
    lemma_sidebar_key_3();
    assert(Action::CursorCollapse.spec_name() == "cursor.collapse"@);
    assert(Action::CursorEnter.spec_name() == "cursor.enter"@);
    assert(Action::CursorOpen.spec_name() == "cursor.open"@);
    assert(Action::DirectoryParent.spec_name() == "directory.parent"@);
    let kas = spec_sidebar();
    let vals: Seq<Option<Seq<ChordView>>> = seq![
        Some(seq![(false, false, false, false, "l"@)]),
        Some(seq![(false, false, false, false, "o"@)]),
        Some(seq![(false, false, false, false, "h"@)]),
        Some(seq![(false, false, false, false, "Minus"@)]),
    ];
    assert forall|i: int| 0 <= i < kas.len() implies #[trigger] spec_parse_shortcut(kas[i].0) == vals[i]
        && (#[trigger] spec_parse_action(kas[i].1)) is Some by {
        if i == 0 {
            assert(kas[0] == ("l"@, "cursor.enter"@));
        } else if i == 1 {
            assert(kas[1] == ("o"@, "cursor.open"@));
        } else if i == 2 {
            assert(kas[2] == ("h"@, "cursor.collapse"@));
        } else if i == 3 {
            assert(kas[3] == ("Minus"@, "directory.parent"@));
        }
    }
    reveal_strlit("Minus");
    reveal_strlit("h");
    reveal_strlit("l");
    reveal_strlit("o");
    assert(vals[0]->Some_0[0].4[0] != vals[1]->Some_0[0].4[0]);
    assert(vals[0]->Some_0[0].4[0] != vals[2]->Some_0[0].4[0]);
    assert(vals[0]->Some_0[0].4.len() != vals[3]->Some_0[0].4.len());
    assert(vals[1]->Some_0[0].4[0] != vals[2]->Some_0[0].4[0]);
    assert(vals[1]->Some_0[0].4.len() != vals[3]->Some_0[0].4.len());
    assert(vals[2]->Some_0[0].4.len() != vals[3]->Some_0[0].4.len());
    assert forall|i: int, j: int| 0 <= i < j < kas.len() implies #[trigger] spec_parse_shortcut(kas[i].0)
        != #[trigger] spec_parse_shortcut(kas[j].0) by {
        assert(i == 0 || i == 1 || i == 2 || i == 3);
        assert(j == 0 || j == 1 || j == 2 || j == 3);
    }
}

/// The `quick_access` list is empty, so it is valid.
proof fn lemma_quick_access_valid()
    ensures
        spec_field_valid(spec_quick_access()),
{
}

/// The `right_sidebar` list is empty, so it is valid.
proof fn lemma_right_sidebar_valid()
    ensures
        spec_field_valid(spec_right_sidebar()),
{
}

/// The `search` list is empty, so it is valid.
proof fn lemma_search_valid()
    ensures
        spec_field_valid(spec_search()),
{
}


} // verus!
