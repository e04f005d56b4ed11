//! The emacs preset: Emacs-style shortcuts built on Control and `Ctrl+x` sequences.
use vstd::prelude::*;

use crate::config::{key_action_views, BindingSet, KeyAction, KeyActionView};
use crate::keybindings::action::Action;
use crate::keybindings::presets::{spec_field_valid, spec_parse_action, spec_preset_valid};
use crate::keybindings::shortcut::{
    lemma_chord_key, lemma_chord_mod, lemma_modifier_names, lemma_shortcut_cons, lemma_shortcut_single,
    spec_parse_shortcut, ChordView,
};

verus! {

/// Entries of the `global` list.
pub open spec fn spec_global() -> Seq<KeyActionView> {
    seq![("Ctrl+n"@, "scroll.down"@), ("Ctrl+p"@, "scroll.up"@), ("Ctrl+v"@, "scroll.page_down"@), ("Alt+v"@, "scroll.page_up"@), ("Alt+Shift+Comma"@, "scroll.top"@), ("Alt+Shift+Period"@, "scroll.bottom"@), ("Ctrl+s"@, "search.open"@), ("Ctrl+r"@, "search.prev"@), ("Ctrl+g"@, "cancel"@), ("Escape"@, "cancel"@), ("Ctrl+x Ctrl+f"@, "file.open"@), ("Ctrl+x d"@, "file.open_directory"@), ("Ctrl+x k"@, "tab.close"@), ("Ctrl+x 5 2"@, "window.new"@), ("Ctrl+x 5 0"@, "window.close"@), ("Ctrl+x Ctrl+c"@, "app.quit"@), ("Ctrl+x o"@, "tab.next"@), ("Alt+Shift+BracketLeft"@, "history.back"@), ("Alt+Shift+BracketRight"@, "history.forward"@)]
}

/// Entries of the `content` list.
pub open spec fn spec_content() -> Seq<KeyActionView> {
    seq![("Alt+n"@, "content.next"@), ("Alt+p"@, "content.prev"@)]
}

/// Entries of the `sidebar` list.
pub open spec fn spec_sidebar() -> Seq<KeyActionView> {
    seq![("Ctrl+n"@, "cursor.down"@), ("Ctrl+p"@, "cursor.up"@), ("Ctrl+f"@, "cursor.enter"@), ("Ctrl+b"@, "cursor.collapse"@)]
}

/// Entries of the `quick_access` list.
pub open spec fn spec_quick_access() -> Seq<KeyActionView> {
    Seq::empty()
}

/// Entries of the `right_sidebar` list.
pub open spec fn spec_right_sidebar() -> Seq<KeyActionView> {
    Seq::empty()
}

/// Entries of the `search` list.
pub open spec fn spec_search() -> Seq<KeyActionView> {
    seq![("Ctrl+s"@, "search.next"@), ("Ctrl+r"@, "search.prev"@)]
}

/// Whether a binding set holds exactly the entries of this preset.
pub open spec fn is_preset(b: BindingSet) -> bool {
    key_action_views(b.global@) == spec_global()
        && key_action_views(b.content@) == spec_content()
        && key_action_views(b.sidebar@) == spec_sidebar()
        && key_action_views(b.quick_access@) == spec_quick_access()
        && key_action_views(b.right_sidebar@) == spec_right_sidebar()
        && key_action_views(b.search@) == spec_search()
}

fn global_entries() -> (v: Vec<KeyAction>)
    ensures
        key_action_views(v@) == spec_global(),
{
    let mut v: Vec<KeyAction> = Vec::new();
    v.push(KeyAction::new("Ctrl+n", "scroll.down"));
    v.push(KeyAction::new("Ctrl+p", "scroll.up"));
    v.push(KeyAction::new("Ctrl+v", "scroll.page_down"));
    v.push(KeyAction::new("Alt+v", "scroll.page_up"));
    v.push(KeyAction::new("Alt+Shift+Comma", "scroll.top"));
    v.push(KeyAction::new("Alt+Shift+Period", "scroll.bottom"));
    v.push(KeyAction::new("Ctrl+s", "search.open"));
    v.push(KeyAction::new("Ctrl+r", "search.prev"));
    v.push(KeyAction::new("Ctrl+g", "cancel"));
    v.push(KeyAction::new("Escape", "cancel"));
    v.push(KeyAction::new("Ctrl+x Ctrl+f", "file.open"));
    v.push(KeyAction::new("Ctrl+x d", "file.open_directory"));
    v.push(KeyAction::new("Ctrl+x k", "tab.close"));
    v.push(KeyAction::new("Ctrl+x 5 2", "window.new"));
    v.push(KeyAction::new("Ctrl+x 5 0", "window.close"));
    v.push(KeyAction::new("Ctrl+x Ctrl+c", "app.quit"));
    v.push(KeyAction::new("Ctrl+x o", "tab.next"));
    v.push(KeyAction::new("Alt+Shift+BracketLeft", "history.back"));
    v.push(KeyAction::new("Alt+Shift+BracketRight", "history.forward"));
    assert(key_action_views(v@) =~= spec_global());
    v
}

fn content_entries() -> (v: Vec<KeyAction>)
    ensures
        key_action_views(v@) == spec_content(),
{
    let mut v: Vec<KeyAction> = Vec::new();
    v.push(KeyAction::new("Alt+n", "content.next"));
    v.push(KeyAction::new("Alt+p", "content.prev"));
    assert(key_action_views(v@) =~= spec_content());
    v
}

fn sidebar_entries() -> (v: Vec<KeyAction>)
    ensures
        key_action_views(v@) == spec_sidebar(),
{
    let mut v: Vec<KeyAction> = Vec::new();
    v.push(KeyAction::new("Ctrl+n", "cursor.down"));
    v.push(KeyAction::new("Ctrl+p", "cursor.up"));
    v.push(KeyAction::new("Ctrl+f", "cursor.enter"));
    v.push(KeyAction::new("Ctrl+b", "cursor.collapse"));
    assert(key_action_views(v@) =~= spec_sidebar());
    v
}

fn quick_access_entries() -> (v: Vec<KeyAction>)
    ensures
        key_action_views(v@) == spec_quick_access(),
{
    let mut v: Vec<KeyAction> = Vec::new();
    assert(key_action_views(v@) =~= spec_quick_access());
    v
}

fn right_sidebar_entries() -> (v: Vec<KeyAction>)
    ensures
        key_action_views(v@) == spec_right_sidebar(),
{
    let mut v: Vec<KeyAction> = Vec::new();
    assert(key_action_views(v@) =~= spec_right_sidebar());
    v
}

fn search_entries() -> (v: Vec<KeyAction>)
    ensures
        key_action_views(v@) == spec_search(),
{
    let mut v: Vec<KeyAction> = Vec::new();
    v.push(KeyAction::new("Ctrl+s", "search.next"));
    v.push(KeyAction::new("Ctrl+r", "search.prev"));
    assert(key_action_views(v@) =~= spec_search());
    v
}

/// The bindings of this preset.
pub fn bindings() -> (b: BindingSet)
    ensures
        is_preset(b),
{
    BindingSet {
        global: global_entries(),
        content: content_entries(),
        sidebar: sidebar_entries(),
        quick_access: quick_access_entries(),
        right_sidebar: right_sidebar_entries(),
        search: search_entries(),
    }
}

/// The preset is valid: every key names a shortcut, every action is known, and no list
/// holds the same shortcut twice.
pub proof fn lemma_preset_valid(b: BindingSet)
    requires
        is_preset(b),
    ensures
        spec_preset_valid(&b),
{
    lemma_global_valid();
    lemma_content_valid();
    lemma_sidebar_valid();
    lemma_quick_access_valid();
    lemma_right_sidebar_valid();
    lemma_search_valid();
}

/// `Ctrl+n` denotes its chords.
proof fn lemma_global_key_0()
    ensures
        spec_parse_shortcut("Ctrl+n"@) == Some(seq![(true, false, false, false, "n"@)]),
{
    lemma_modifier_names();
    reveal_strlit("Ctrl");
    reveal_strlit("Ctrl+n");
    reveal_strlit("n");
    lemma_chord_key("n"@);
    assert("Ctrl+n"@ =~= "Ctrl"@ + seq!['+'] + "n"@);
    lemma_chord_mod("Ctrl"@, "n"@);
    lemma_shortcut_single("Ctrl+n"@);
}

/// `Ctrl+p` denotes its chords.
proof fn lemma_global_key_1()
    ensures
        spec_parse_shortcut("Ctrl+p"@) == Some(seq![(true, false, false, false, "p"@)]),
{
    lemma_modifier_names();
    reveal_strlit("Ctrl");
    reveal_strlit("Ctrl+p");
    reveal_strlit("p");
    lemma_chord_key("p"@);
    assert("Ctrl+p"@ =~= "Ctrl"@ + seq!['+'] + "p"@);
    lemma_chord_mod("Ctrl"@, "p"@);
    lemma_shortcut_single("Ctrl+p"@);
}

/// `Ctrl+v` denotes its chords.
proof fn lemma_global_key_2()
    ensures
        spec_parse_shortcut("Ctrl+v"@) == Some(seq![(true, false, false, false, "v"@)]),
{
    lemma_modifier_names();
    reveal_strlit("Ctrl");
    reveal_strlit("Ctrl+v");
    reveal_strlit("v");
    lemma_chord_key("v"@);
    assert("Ctrl+v"@ =~= "Ctrl"@ + seq!['+'] + "v"@);
    lemma_chord_mod("Ctrl"@, "v"@);
    lemma_shortcut_single("Ctrl+v"@);
}

/// `Alt+v` denotes its chords.
proof fn lemma_global_key_3()
    ensures
        spec_parse_shortcut("Alt+v"@) == Some(seq![(false, true, false, false, "v"@)]),
{
    lemma_modifier_names();
    reveal_strlit("Alt");
    reveal_strlit("Alt+v");
    reveal_strlit("v");
    lemma_chord_key("v"@);
    assert("Alt+v"@ =~= "Alt"@ + seq!['+'] + "v"@);
    lemma_chord_mod("Alt"@, "v"@);
    lemma_shortcut_single("Alt+v"@);
}

/// `Alt+Shift+Comma` denotes its chords.
proof fn lemma_global_key_4()
    ensures
        spec_parse_shortcut("Alt+Shift+Comma"@) == Some(seq![(false, true, true, false, "Comma"@)]),
{
    lemma_modifier_names();
    reveal_strlit("Alt");
    reveal_strlit("Alt+Shift+Comma");
    reveal_strlit("Comma");
    reveal_strlit("Shift");
    reveal_strlit("Shift+Comma");
    lemma_chord_key("Comma"@);
    assert("Shift+Comma"@ =~= "Shift"@ + seq!['+'] + "Comma"@);
    lemma_chord_mod("Shift"@, "Comma"@);
    assert("Alt+Shift+Comma"@ =~= "Alt"@ + seq!['+'] + "Shift+Comma"@);
    lemma_chord_mod("Alt"@, "Shift+Comma"@);
    lemma_shortcut_single("Alt+Shift+Comma"@);
}

/// `Alt+Shift+Period` denotes its chords.
proof fn lemma_global_key_5()
    ensures
        spec_parse_shortcut("Alt+Shift+Period"@) == Some(seq![(false, true, true, false, "Period"@)]),
{
    lemma_modifier_names();
    reveal_strlit("Alt");
    reveal_strlit("Alt+Shift+Period");
    reveal_strlit("Period");
    reveal_strlit("Shift");
    reveal_strlit("Shift+Period");
    lemma_chord_key("Period"@);
    assert("Shift+Period"@ =~= "Shift"@ + seq!['+'] + "Period"@);
    lemma_chord_mod("Shift"@, "Period"@);
    assert("Alt+Shift+Period"@ =~= "Alt"@ + seq!['+'] + "Shift+Period"@);
    lemma_chord_mod("Alt"@, "Shift+Period"@);
    lemma_shortcut_single("Alt+Shift+Period"@);
}

/// `Ctrl+s` denotes its chords.
proof fn lemma_global_key_6()
    ensures
        spec_parse_shortcut("Ctrl+s"@) == Some(seq![(true, false, false, false, "s"@)]),
{
    lemma_modifier_names();
    reveal_strlit("Ctrl");
    reveal_strlit("Ctrl+s");
    reveal_strlit("s");
    lemma_chord_key("s"@);
    assert("Ctrl+s"@ =~= "Ctrl"@ + seq!['+'] + "s"@);
    lemma_chord_mod("Ctrl"@, "s"@);
    lemma_shortcut_single("Ctrl+s"@);
}

/// `Ctrl+r` denotes its chords.
proof fn lemma_global_key_7()
    ensures
        spec_parse_shortcut("Ctrl+r"@) == Some(seq![(true, false, false, false, "r"@)]),
{
    lemma_modifier_names();
    reveal_strlit("Ctrl");
    reveal_strlit("Ctrl+r");
    reveal_strlit("r");
    lemma_chord_key("r"@);
    assert("Ctrl+r"@ =~= "Ctrl"@ + seq!['+'] + "r"@);
    lemma_chord_mod("Ctrl"@, "r"@);
    lemma_shortcut_single("Ctrl+r"@);
}

/// `Ctrl+g` denotes its chords.
proof fn lemma_global_key_8()
    ensures
        spec_parse_shortcut("Ctrl+g"@) == Some(seq![(true, false, false, false, "g"@)]),
{
    lemma_modifier_names();
    reveal_strlit("Ctrl");
    reveal_strlit("Ctrl+g");
    reveal_strlit("g");
    lemma_chord_key("g"@);
    assert("Ctrl+g"@ =~= "Ctrl"@ + seq!['+'] + "g"@);
    lemma_chord_mod("Ctrl"@, "g"@);
    lemma_shortcut_single("Ctrl+g"@);
}

/// `Escape` denotes its chords.
proof fn lemma_global_key_9()
    ensures
        spec_parse_shortcut("Escape"@) == Some(seq![(false, false, false, false, "Escape"@)]),
{
    lemma_modifier_names();
    reveal_strlit("Escape");
    lemma_chord_key("Escape"@);
    lemma_shortcut_single("Escape"@);
}

/// `Ctrl+x Ctrl+f` denotes its chords.
proof fn lemma_global_key_10()
    ensures
        spec_parse_shortcut("Ctrl+x Ctrl+f"@) == Some(seq![(true, false, false, false, "x"@), (true, false, false, false, "f"@)]),
{
    lemma_modifier_names();
    reveal_strlit("Ctrl");
    reveal_strlit("Ctrl+f");
    reveal_strlit("Ctrl+x");
    reveal_strlit("Ctrl+x Ctrl+f");
    reveal_strlit("f");
    reveal_strlit("x");
    lemma_chord_key("x"@);
    assert("Ctrl+x"@ =~= "Ctrl"@ + seq!['+'] + "x"@);
    lemma_chord_mod("Ctrl"@, "x"@);
    lemma_chord_key("f"@);
    assert("Ctrl+f"@ =~= "Ctrl"@ + seq!['+'] + "f"@);
    lemma_chord_mod("Ctrl"@, "f"@);
    lemma_shortcut_single("Ctrl+f"@);
    assert("Ctrl+x Ctrl+f"@ =~= "Ctrl+x"@ + seq![' '] + "Ctrl+f"@);
    lemma_shortcut_cons("Ctrl+x"@, "Ctrl+f"@);
}

/// `Ctrl+x d` denotes its chords.
proof fn lemma_global_key_11()
    ensures
        spec_parse_shortcut("Ctrl+x d"@) == Some(seq![(true, false, false, false, "x"@), (false, false, false, false, "d"@)]),
{
    lemma_modifier_names();
    reveal_strlit("Ctrl");
    reveal_strlit("Ctrl+x");
    reveal_strlit("Ctrl+x d");
    reveal_strlit("d");
    reveal_strlit("x");
    lemma_chord_key("x"@);
    assert("Ctrl+x"@ =~= "Ctrl"@ + seq!['+'] + "x"@);
    lemma_chord_mod("Ctrl"@, "x"@);
    lemma_chord_key("d"@);
    lemma_shortcut_single("d"@);
    assert("Ctrl+x d"@ =~= "Ctrl+x"@ + seq![' '] + "d"@);
    lemma_shortcut_cons("Ctrl+x"@, "d"@);
}

/// `Ctrl+x k` denotes its chords.
proof fn lemma_global_key_12()
    ensures
        spec_parse_shortcut("Ctrl+x k"@) == Some(seq![(true, false, false, false, "x"@), (false, false, false, false, "k"@)]),
{
    lemma_modifier_names();
    reveal_strlit("Ctrl");
    reveal_strlit("Ctrl+x");
    reveal_strlit("Ctrl+x k");
    reveal_strlit("k");
    reveal_strlit("x");
    lemma_chord_key("x"@);
    assert("Ctrl+x"@ =~= "Ctrl"@ + seq!['+'] + "x"@);
    lemma_chord_mod("Ctrl"@, "x"@);
    lemma_chord_key("k"@);
    lemma_shortcut_single("k"@);
    assert("Ctrl+x k"@ =~= "Ctrl+x"@ + seq![' '] + "k"@);
    lemma_shortcut_cons("Ctrl+x"@, "k"@);
}

/// `Ctrl+x 5 2` denotes its chords.
proof fn lemma_global_key_13()
    ensures
        spec_parse_shortcut("Ctrl+x 5 2"@) == Some(seq![(true, false, false, false, "x"@), (false, false, false, false, "5"@), (false, false, false, false, "2"@)]),
{
    lemma_modifier_names();
    reveal_strlit("2");
    reveal_strlit("5");
    reveal_strlit("5 2");
    reveal_strlit("Ctrl");
    reveal_strlit("Ctrl+x");
    reveal_strlit("Ctrl+x 5 2");
    reveal_strlit("x");
    lemma_chord_key("x"@);
    assert("Ctrl+x"@ =~= "Ctrl"@ + seq!['+'] + "x"@);
    lemma_chord_mod("Ctrl"@, "x"@);
    lemma_chord_key("5"@);
    lemma_chord_key("2"@);
    lemma_shortcut_single("2"@);
    assert("5 2"@ =~= "5"@ + seq![' '] + "2"@);
    lemma_shortcut_cons("5"@, "2"@);
    assert("Ctrl+x 5 2"@ =~= "Ctrl+x"@ + seq![' '] + "5 2"@);
    lemma_shortcut_cons("Ctrl+x"@, "5 2"@);
}

/// `Ctrl+x 5 0` denotes its chords.
proof fn lemma_global_key_14()
    ensures
        spec_parse_shortcut("Ctrl+x 5 0"@) == Some(seq![(true, false, false, false, "x"@), (false, false, false, false, "5"@), (false, false, false, false, "0"@)]),
{
    lemma_modifier_names();
    reveal_strlit("0");
    reveal_strlit("5");
    reveal_strlit("5 0");
    reveal_strlit("Ctrl");
    reveal_strlit("Ctrl+x");
    reveal_strlit("Ctrl+x 5 0");
    reveal_strlit("x");
    lemma_chord_key("x"@);
    assert("Ctrl+x"@ =~= "Ctrl"@ + seq!['+'] + "x"@);
    lemma_chord_mod("Ctrl"@, "x"@);
    lemma_chord_key("5"@);
    lemma_chord_key("0"@);
    lemma_shortcut_single("0"@);
    assert("5 0"@ =~= "5"@ + seq![' '] + "0"@);
    lemma_shortcut_cons("5"@, "0"@);
    assert("Ctrl+x 5 0"@ =~= "Ctrl+x"@ + seq![' '] + "5 0"@);
    lemma_shortcut_cons("Ctrl+x"@, "5 0"@);
}

/// `Ctrl+x Ctrl+c` denotes its chords.
proof fn lemma_global_key_15()
    ensures
        spec_parse_shortcut("Ctrl+x Ctrl+c"@) == Some(seq![(true, false, false, false, "x"@), (true, false, false, false, "c"@)]),
{
    lemma_modifier_names();
    reveal_strlit("Ctrl");
    reveal_strlit("Ctrl+c");
    reveal_strlit("Ctrl+x");
    reveal_strlit("Ctrl+x Ctrl+c");
    reveal_strlit("c");
    reveal_strlit("x");
    lemma_chord_key("x"@);
    assert("Ctrl+x"@ =~= "Ctrl"@ + seq!['+'] + "x"@);
    lemma_chord_mod("Ctrl"@, "x"@);
    lemma_chord_key("c"@);
    assert("Ctrl+c"@ =~= "Ctrl"@ + seq!['+'] + "c"@);
    lemma_chord_mod("Ctrl"@, "c"@);
    lemma_shortcut_single("Ctrl+c"@);
    assert("Ctrl+x Ctrl+c"@ =~= "Ctrl+x"@ + seq![' '] + "Ctrl+c"@);
    lemma_shortcut_cons("Ctrl+x"@, "Ctrl+c"@);
}

/// `Ctrl+x o` denotes its chords.
proof fn lemma_global_key_16()
    ensures
        spec_parse_shortcut("Ctrl+x o"@) == Some(seq![(true, false, false, false, "x"@), (false, false, false, false, "o"@)]),
{
    lemma_modifier_names();
    reveal_strlit("Ctrl");
    reveal_strlit("Ctrl+x");
    reveal_strlit("Ctrl+x o");
    reveal_strlit("o");
    reveal_strlit("x");
    lemma_chord_key("x"@);
    assert("Ctrl+x"@ =~= "Ctrl"@ + seq!['+'] + "x"@);
    lemma_chord_mod("Ctrl"@, "x"@);
    lemma_chord_key("o"@);
    lemma_shortcut_single("o"@);
    assert("Ctrl+x o"@ =~= "Ctrl+x"@ + seq![' '] + "o"@);
    lemma_shortcut_cons("Ctrl+x"@, "o"@);
}

/// `Alt+Shift+BracketLeft` denotes its chords.
proof fn lemma_global_key_17()
    ensures
        spec_parse_shortcut("Alt+Shift+BracketLeft"@) == Some(seq![(false, true, true, false, "BracketLeft"@)]),
{
    lemma_modifier_names();
    reveal_strlit("Alt");
    reveal_strlit("Alt+Shift+BracketLeft");
    reveal_strlit("BracketLeft");
    reveal_strlit("Shift");
    reveal_strlit("Shift+BracketLeft");
    lemma_chord_key("BracketLeft"@);
    assert("Shift+BracketLeft"@ =~= "Shift"@ + seq!['+'] + "BracketLeft"@);
    lemma_chord_mod("Shift"@, "BracketLeft"@);
    assert("Alt+Shift+BracketLeft"@ =~= "Alt"@ + seq!['+'] + "Shift+BracketLeft"@);
    lemma_chord_mod("Alt"@, "Shift+BracketLeft"@);
    lemma_shortcut_single("Alt+Shift+BracketLeft"@);
}

/// `Alt+Shift+BracketRight` denotes its chords.
proof fn lemma_global_key_18()
    ensures
        spec_parse_shortcut("Alt+Shift+BracketRight"@) == Some(seq![(false, true, true, false, "BracketRight"@)]),
{
    lemma_modifier_names();
    reveal_strlit("Alt");
    reveal_strlit("Alt+Shift+BracketRight");
    reveal_strlit("BracketRight");
    reveal_strlit("Shift");
    reveal_strlit("Shift+BracketRight");
    lemma_chord_key("BracketRight"@);
    assert("Shift+BracketRight"@ =~= "Shift"@ + seq!['+'] + "BracketRight"@);
    lemma_chord_mod("Shift"@, "BracketRight"@);
    assert("Alt+Shift+BracketRight"@ =~= "Alt"@ + seq!['+'] + "Shift+BracketRight"@);
    lemma_chord_mod("Alt"@, "Shift+BracketRight"@);
    lemma_shortcut_single("Alt+Shift+BracketRight"@);
}

/// Every entry of the `global` list names a shortcut and a known action, and no two
/// entries denote the same shortcut.
#[verifier::spinoff_prover]
proof fn lemma_global_valid()
    ensures
        spec_field_valid(spec_global()),
{
    lemma_global_key_0();
    lemma_global_key_1();
    lemma_global_key_2();
    lemma_global_key_3();
    lemma_global_key_4();
    lemma_global_key_5();
    lemma_global_key_6();
    lemma_global_key_7();
    lemma_global_key_8();
    lemma_global_key_9();
    lemma_global_key_10();
    lemma_global_key_11();
    lemma_global_key_12();
    lemma_global_key_13();
    lemma_global_key_14();
    lemma_global_key_15();
    lemma_global_key_16();
    lemma_global_key_17();
    lemma_global_key_18();
    assert(Action::AppQuit.spec_name() == "app.quit"@);
    assert(Action::Cancel.spec_name() == "cancel"@);
    assert(Action::FileOpen.spec_name() == "file.open"@);
    assert(Action::FileOpenDirectory.spec_name() == "file.open_directory"@);
    assert(Action::HistoryBack.spec_name() == "history.back"@);
    assert(Action::HistoryForward.spec_name() == "history.forward"@);
    assert(Action::ScrollBottom.spec_name() == "scroll.bottom"@);
    assert(Action::ScrollDown.spec_name() == "scroll.down"@);
    assert(Action::ScrollPageDown.spec_name() == "scroll.page_down"@);
    assert(Action::ScrollPageUp.spec_name() == "scroll.page_up"@);
    assert(Action::ScrollTop.spec_name() == "scroll.top"@);
    assert(Action::ScrollUp.spec_name() == "scroll.up"@);
    assert(Action::SearchOpen.spec_name() == "search.open"@);
    assert(Action::SearchPrev.spec_name() == "search.prev"@);
    assert(Action::TabClose.spec_name() == "tab.close"@);
    assert(Action::TabNext.spec_name() == "tab.next"@);
    assert(Action::WindowClose.spec_name() == "window.close"@);
    assert(Action::WindowNew.spec_name() == "window.new"@);
    let kas = spec_global();
    let vals: Seq<Option<Seq<ChordView>>> = seq![
        Some(seq![(true, false, false, false, "n"@)]),
        Some(seq![(true, false, false, false, "p"@)]),
        Some(seq![(true, false, false, false, "v"@)]),
        Some(seq![(false, true, false, false, "v"@)]),
        Some(seq![(false, true, true, false, "Comma"@)]),
        Some(seq![(false, true, true, false, "Period"@)]),
        Some(seq![(true, false, false, false, "s"@)]),
        Some(seq![(true, false, false, false, "r"@)]),
        Some(seq![(true, false, false, false, "g"@)]),
        Some(seq![(false, false, false, false, "Escape"@)]),
        Some(seq![(true, false, false, false, "x"@), (true, false, false, false, "f"@)]),
        Some(seq![(true, false, false, false, "x"@), (false, false, false, false, "d"@)]),
        Some(seq![(true, false, false, false, "x"@), (false, false, false, false, "k"@)]),
        Some(seq![(true, false, false, false, "x"@), (false, false, false, false, "5"@), (false, false, false, false, "2"@)]),
        Some(seq![(true, false, false, false, "x"@), (false, false, false, false, "5"@), (false, false, false, false, "0"@)]),
        Some(seq![(true, false, false, false, "x"@), (true, false, false, false, "c"@)]),
        Some(seq![(true, false, false, false, "x"@), (false, false, false, false, "o"@)]),
        Some(seq![(false, true, true, false, "BracketLeft"@)]),
        Some(seq![(false, true, true, false, "BracketRight"@)]),
    ];
    assert forall|i: int| 0 <= i < kas.len() implies #[trigger] spec_parse_shortcut(kas[i].0) == vals[i]
        && (#[trigger] spec_parse_action(kas[i].1)) is Some by {
        if i == 0 {
            assert(kas[0] == ("Ctrl+n"@, "scroll.down"@));
        } else if i == 1 {
            assert(kas[1] == ("Ctrl+p"@, "scroll.up"@));
        } else if i == 2 {
            assert(kas[2] == ("Ctrl+v"@, "scroll.page_down"@));
        } else if i == 3 {
            assert(kas[3] == ("Alt+v"@, "scroll.page_up"@));
        } else if i == 4 {
            assert(kas[4] == ("Alt+Shift+Comma"@, "scroll.top"@));
        } else if i == 5 {
            assert(kas[5] == ("Alt+Shift+Period"@, "scroll.bottom"@));
        } else if i == 6 {
            assert(kas[6] == ("Ctrl+s"@, "search.open"@));
        } else if i == 7 {
            assert(kas[7] == ("Ctrl+r"@, "search.prev"@));
        } else if i == 8 {
            assert(kas[8] == ("Ctrl+g"@, "cancel"@));
        } else if i == 9 {
            assert(kas[9] == ("Escape"@, "cancel"@));
        } else if i == 10 {
            assert(kas[10] == ("Ctrl+x Ctrl+f"@, "file.open"@));
        } else if i == 11 {
            assert(kas[11] == ("Ctrl+x d"@, "file.open_directory"@));
        } else if i == 12 {
            assert(kas[12] == ("Ctrl+x k"@, "tab.close"@));
        } else if i == 13 {
            assert(kas[13] == ("Ctrl+x 5 2"@, "window.new"@));
        } else if i == 14 {
            assert(kas[14] == ("Ctrl+x 5 0"@, "window.close"@));
        } else if i == 15 {
            assert(kas[15] == ("Ctrl+x Ctrl+c"@, "app.quit"@));
        } else if i == 16 {
            assert(kas[16] == ("Ctrl+x o"@, "tab.next"@));
        } else if i == 17 {
            assert(kas[17] == ("Alt+Shift+BracketLeft"@, "history.back"@));
        } else if i == 18 {
            assert(kas[18] == ("Alt+Shift+BracketRight"@, "history.forward"@));
        }
    }
    reveal_strlit("0");
    reveal_strlit("2");
    reveal_strlit("5");
    reveal_strlit("BracketLeft");
    reveal_strlit("BracketRight");
    reveal_strlit("Comma");
    reveal_strlit("Escape");
    reveal_strlit("Period");
    reveal_strlit("c");
    reveal_strlit("d");
    reveal_strlit("f");
    reveal_strlit("g");
    reveal_strlit("k");
    reveal_strlit("n");
    reveal_strlit("o");
    reveal_strlit("p");
    reveal_strlit("r");
    reveal_strlit("s");
    reveal_strlit("v");
    reveal_strlit("x");
    assert(vals[0]->Some_0[0].4[0] != vals[1]->Some_0[0].4[0]);
    assert(vals[0]->Some_0[0].4[0] != vals[2]->Some_0[0].4[0]);
    assert(vals[0]->Some_0[0].0 != vals[3]->Some_0[0].0);
    assert(vals[0]->Some_0[0].0 != vals[4]->Some_0[0].0);
    assert(vals[0]->Some_0[0].0 != vals[5]->Some_0[0].0);
    assert(vals[0]->Some_0[0].4[0] != vals[6]->Some_0[0].4[0]);
    assert(vals[0]->Some_0[0].4[0] != vals[7]->Some_0[0].4[0]);
    assert(vals[0]->Some_0[0].4[0] != vals[8]->Some_0[0].4[0]);
    assert(vals[0]->Some_0[0].0 != vals[9]->Some_0[0].0);
    assert(vals[0]->Some_0.len() != vals[10]->Some_0.len());
    assert(vals[0]->Some_0.len() != vals[11]->Some_0.len());
    assert(vals[0]->Some_0.len() != vals[12]->Some_0.len());
    assert(vals[0]->Some_0.len() != vals[13]->Some_0.len());
    assert(vals[0]->Some_0.len() != vals[14]->Some_0.len());
    assert(vals[0]->Some_0.len() != vals[15]->Some_0.len());
    assert(vals[0]->Some_0.len() != vals[16]->Some_0.len());
    assert(vals[0]->Some_0[0].0 != vals[17]->Some_0[0].0);
    assert(vals[0]->Some_0[0].0 != vals[18]->Some_0[0].0);
    assert(vals[1]->Some_0[0].4[0] != vals[2]->Some_0[0].4[0]);
    assert(vals[1]->Some_0[0].0 != vals[3]->Some_0[0].0);
    assert(vals[1]->Some_0[0].0 != vals[4]->Some_0[0].0);
    assert(vals[1]->Some_0[0].0 != vals[5]->Some_0[0].0);
    assert(vals[1]->Some_0[0].4[0] != vals[6]->Some_0[0].4[0]);
    assert(vals[1]->Some_0[0].4[0] != vals[7]->Some_0[0].4[0]);
    assert(vals[1]->Some_0[0].4[0] != vals[8]->Some_0[0].4[0]);
    assert(vals[1]->Some_0[0].0 != vals[9]->Some_0[0].0);
    assert(vals[1]->Some_0.len() != vals[10]->Some_0.len());
    assert(vals[1]->Some_0.len() != vals[11]->Some_0.len());
    assert(vals[1]->Some_0.len() != vals[12]->Some_0.len());
    assert(vals[1]->Some_0.len() != vals[13]->Some_0.len());
    assert(vals[1]->Some_0.len() != vals[14]->Some_0.len());
    assert(vals[1]->Some_0.len() != vals[15]->Some_0.len());
    assert(vals[1]->Some_0.len() != vals[16]->Some_0.len());
    assert(vals[1]->Some_0[0].0 != vals[17]->Some_0[0].0);
    assert(vals[1]->Some_0[0].0 != vals[18]->Some_0[0].0);
    assert(vals[2]->Some_0[0].0 != vals[3]->Some_0[0].0);
    assert(vals[2]->Some_0[0].0 != vals[4]->Some_0[0].0);
    assert(vals[2]->Some_0[0].0 != vals[5]->Some_0[0].0);
    assert(vals[2]->Some_0[0].4[0] != vals[6]->Some_0[0].4[0]);
    assert(vals[2]->Some_0[0].4[0] != vals[7]->Some_0[0].4[0]);
    assert(vals[2]->Some_0[0].4[0] != vals[8]->Some_0[0].4[0]);
    assert(vals[2]->Some_0[0].0 != vals[9]->Some_0[0].0);
    assert(vals[2]->Some_0.len() != vals[10]->Some_0.len());
    assert(vals[2]->Some_0.len() != vals[11]->Some_0.len());
    assert(vals[2]->Some_0.len() != vals[12]->Some_0.len());
    assert(vals[2]->Some_0.len() != vals[13]->Some_0.len());
    assert(vals[2]->Some_0.len() != vals[14]->Some_0.len());
    assert(vals[2]->Some_0.len() != vals[15]->Some_0.len());
    assert(vals[2]->Some_0.len() != vals[16]->Some_0.len());
    assert(vals[2]->Some_0[0].0 != vals[17]->Some_0[0].0);
    assert(vals[2]->Some_0[0].0 != vals[18]->Some_0[0].0);
    assert(vals[3]->Some_0[0].2 != vals[4]->Some_0[0].2);
    assert(vals[3]->Some_0[0].2 != vals[5]->Some_0[0].2);
    assert(vals[3]->Some_0[0].0 != vals[6]->Some_0[0].0);
    assert(vals[3]->Some_0[0].0 != vals[7]->Some_0[0].0);
    assert(vals[3]->Some_0[0].0 != vals[8]->Some_0[0].0);
    assert(vals[3]->Some_0[0].1 != vals[9]->Some_0[0].1);
    assert(vals[3]->Some_0.len() != vals[10]->Some_0.len());
    assert(vals[3]->Some_0.len() != vals[11]->Some_0.len());
    assert(vals[3]->Some_0.len() != vals[12]->Some_0.len());
    assert(vals[3]->Some_0.len() != vals[13]->Some_0.len());
    assert(vals[3]->Some_0.len() != vals[14]->Some_0.len());
    assert(vals[3]->Some_0.len() != vals[15]->Some_0.len());
    assert(vals[3]->Some_0.len() != vals[16]->Some_0.len());
    assert(vals[3]->Some_0[0].2 != vals[17]->Some_0[0].2);
    assert(vals[3]->Some_0[0].2 != vals[18]->Some_0[0].2);
    assert(vals[4]->Some_0[0].4.len() != vals[5]->Some_0[0].4.len());
    assert(vals[4]->Some_0[0].0 != vals[6]->Some_0[0].0);
    assert(vals[4]->Some_0[0].0 != vals[7]->Some_0[0].0);
    assert(vals[4]->Some_0[0].0 != vals[8]->Some_0[0].0);
    assert(vals[4]->Some_0[0].1 != vals[9]->Some_0[0].1);
    assert(vals[4]->Some_0.len() != vals[10]->Some_0.len());
    assert(vals[4]->Some_0.len() != vals[11]->Some_0.len());
    assert(vals[4]->Some_0.len() != vals[12]->Some_0.len());
    assert(vals[4]->Some_0.len() != vals[13]->Some_0.len());
    assert(vals[4]->Some_0.len() != vals[14]->Some_0.len());
    assert(vals[4]->Some_0.len() != vals[15]->Some_0.len());
    assert(vals[4]->Some_0.len() != vals[16]->Some_0.len());
    assert(vals[4]->Some_0[0].4.len() != vals[17]->Some_0[0].4.len());
    assert(vals[4]->Some_0[0].4.len() != vals[18]->Some_0[0].4.len());
    assert(vals[5]->Some_0[0].0 != vals[6]->Some_0[0].0);
    assert(vals[5]->Some_0[0].0 != vals[7]->Some_0[0].0);
    assert(vals[5]->Some_0[0].0 != vals[8]->Some_0[0].0);
    assert(vals[5]->Some_0[0].1 != vals[9]->Some_0[0].1);
    assert(vals[5]->Some_0.len() != vals[10]->Some_0.len());
    assert(vals[5]->Some_0.len() != vals[11]->Some_0.len());
    assert(vals[5]->Some_0.len() != vals[12]->Some_0.len());
    assert(vals[5]->Some_0.len() != vals[13]->Some_0.len());
    assert(vals[5]->Some_0.len() != vals[14]->Some_0.len());
    assert(vals[5]->Some_0.len() != vals[15]->Some_0.len());
    assert(vals[5]->Some_0.len() != vals[16]->Some_0.len());
    assert(vals[5]->Some_0[0].4.len() != vals[17]->Some_0[0].4.len());
    assert(vals[5]->Some_0[0].4.len() != vals[18]->Some_0[0].4.len());
    assert(vals[6]->Some_0[0].4[0] != vals[7]->Some_0[0].4[0]);
    assert(vals[6]->Some_0[0].4[0] != vals[8]->Some_0[0].4[0]);
    assert(vals[6]->Some_0[0].0 != vals[9]->Some_0[0].0);
    assert(vals[6]->Some_0.len() != vals[10]->Some_0.len());
    assert(vals[6]->Some_0.len() != vals[11]->Some_0.len());
    assert(vals[6]->Some_0.len() != vals[12]->Some_0.len());
    assert(vals[6]->Some_0.len() != vals[13]->Some_0.len());
    assert(vals[6]->Some_0.len() != vals[14]->Some_0.len());
    assert(vals[6]->Some_0.len() != vals[15]->Some_0.len());
    assert(vals[6]->Some_0.len() != vals[16]->Some_0.len());
    assert(vals[6]->Some_0[0].0 != vals[17]->Some_0[0].0);
    assert(vals[6]->Some_0[0].0 != vals[18]->Some_0[0].0);
    assert(vals[7]->Some_0[0].4[0] != vals[8]->Some_0[0].4[0]);
    assert(vals[7]->Some_0[0].0 != vals[9]->Some_0[0].0);
    assert(vals[7]->Some_0.len() != vals[10]->Some_0.len());
    assert(vals[7]->Some_0.len() != vals[11]->Some_0.len());
    assert(vals[7]->Some_0.len() != vals[12]->Some_0.len());
    assert(vals[7]->Some_0.len() != vals[13]->Some_0.len());
    assert(vals[7]->Some_0.len() != vals[14]->Some_0.len());
    assert(vals[7]->Some_0.len() != vals[15]->Some_0.len());
    assert(vals[7]->Some_0.len() != vals[16]->Some_0.len());
    assert(vals[7]->Some_0[0].0 != vals[17]->Some_0[0].0);
    assert(vals[7]->Some_0[0].0 != vals[18]->Some_0[0].0);
    assert(vals[8]->Some_0[0].0 != vals[9]->Some_0[0].0);
    assert(vals[8]->Some_0.len() != vals[10]->Some_0.len());
    assert(vals[8]->Some_0.len() != vals[11]->Some_0.len());
    assert(vals[8]->Some_0.len() != vals[12]->Some_0.len());
    assert(vals[8]->Some_0.len() != vals[13]->Some_0.len());
    assert(vals[8]->Some_0.len() != vals[14]->Some_0.len());
    assert(vals[8]->Some_0.len() != vals[15]->Some_0.len());
    assert(vals[8]->Some_0.len() != vals[16]->Some_0.len());
    assert(vals[8]->Some_0[0].0 != vals[17]->Some_0[0].0);
    assert(vals[8]->Some_0[0].0 != vals[18]->Some_0[0].0);
    assert(vals[9]->Some_0.len() != vals[10]->Some_0.len());
    assert(vals[9]->Some_0.len() != vals[11]->Some_0.len());
    assert(vals[9]->Some_0.len() != vals[12]->Some_0.len());
    assert(vals[9]->Some_0.len() != vals[13]->Some_0.len());
    assert(vals[9]->Some_0.len() != vals[14]->Some_0.len());
    assert(vals[9]->Some_0.len() != vals[15]->Some_0.len());
    assert(vals[9]->Some_0.len() != vals[16]->Some_0.len());
    assert(vals[9]->Some_0[0].1 != vals[17]->Some_0[0].1);
    assert(vals[9]->Some_0[0].1 != vals[18]->Some_0[0].1);
    assert(vals[10]->Some_0[1].0 != vals[11]->Some_0[1].0);
    assert(vals[10]->Some_0[1].0 != vals[12]->Some_0[1].0);
    assert(vals[10]->Some_0.len() != vals[13]->Some_0.len());
    assert(vals[10]->Some_0.len() != vals[14]->Some_0.len());
    assert(vals[10]->Some_0[1].4[0] != vals[15]->Some_0[1].4[0]);
    assert(vals[10]->Some_0[1].0 != vals[16]->Some_0[1].0);
    assert(vals[10]->Some_0.len() != vals[17]->Some_0.len());
    assert(vals[10]->Some_0.len() != vals[18]->Some_0.len());
    assert(vals[11]->Some_0[1].4[0] != vals[12]->Some_0[1].4[0]);
    assert(vals[11]->Some_0.len() != vals[13]->Some_0.len());
    assert(vals[11]->Some_0.len() != vals[14]->Some_0.len());
    assert(vals[11]->Some_0[1].0 != vals[15]->Some_0[1].0);
    assert(vals[11]->Some_0[1].4[0] != vals[16]->Some_0[1].4[0]);
    assert(vals[11]->Some_0.len() != vals[17]->Some_0.len());
    assert(vals[11]->Some_0.len() != vals[18]->Some_0.len());
    assert(vals[12]->Some_0.len() != vals[13]->Some_0.len());
    assert(vals[12]->Some_0.len() != vals[14]->Some_0.len());
    assert(vals[12]->Some_0[1].0 != vals[15]->Some_0[1].0);
    assert(vals[12]->Some_0[1].4[0] != vals[16]->Some_0[1].4[0]);
    assert(vals[12]->Some_0.len() != vals[17]->Some_0.len());
    assert(vals[12]->Some_0.len() != vals[18]->Some_0.len());
    assert(vals[13]->Some_0[2].4[0] != vals[14]->Some_0[2].4[0]);
    assert(vals[13]->Some_0.len() != vals[15]->Some_0.len());
    assert(vals[13]->Some_0.len() != vals[16]->Some_0.len());
    assert(vals[13]->Some_0.len() != vals[17]->Some_0.len());
    assert(vals[13]->Some_0.len() != vals[18]->Some_0.len());
    assert(vals[14]->Some_0.len() != vals[15]->Some_0.len());
    assert(vals[14]->Some_0.len() != vals[16]->Some_0.len());
    assert(vals[14]->Some_0.len() != vals[17]->Some_0.len());
    assert(vals[14]->Some_0.len() != vals[18]->Some_0.len());
    assert(vals[15]->Some_0[1].0 != vals[16]->Some_0[1].0);
    assert(vals[15]->Some_0.len() != vals[17]->Some_0.len());
    assert(vals[15]->Some_0.len() != vals[18]->Some_0.len());
    assert(vals[16]->Some_0.len() != vals[17]->Some_0.len());
    assert(vals[16]->Some_0.len() != vals[18]->Some_0.len());
    assert(vals[17]->Some_0[0].4.len() != vals[18]->Some_0[0].4.len());
    assert forall|i: int, j: int| 0 <= i < j < kas.len() implies #[trigger] spec_parse_shortcut(kas[i].0)
        != #[trigger] spec_parse_shortcut(kas[j].0) by {
        assert(i == 0 || i == 1 || i == 2 || i == 3 || i == 4 || i == 5 || i == 6 || i == 7 || i == 8 || i == 9 || i == 10 || i == 11 || i == 12 || i == 13 || i == 14 || i == 15 || i == 16 || i == 17 || i == 18);
        assert(j == 0 || j == 1 || j == 2 || j == 3 || j == 4 || j == 5 || j == 6 || j == 7 || j == 8 || j == 9 || j == 10 || j == 11 || j == 12 || j == 13 || j == 14 || j == 15 || j == 16 || j == 17 || j == 18);
    }
}

/// `Alt+n` denotes its chords.
proof fn lemma_content_key_0()
    ensures
        spec_parse_shortcut("Alt+n"@) == Some(seq![(false, true, false, false, "n"@)]),
{
    lemma_modifier_names();
    reveal_strlit("Alt");
    reveal_strlit("Alt+n");
    reveal_strlit("n");
    lemma_chord_key("n"@);
    assert("Alt+n"@ =~= "Alt"@ + seq!['+'] + "n"@);
    lemma_chord_mod("Alt"@, "n"@);
    lemma_shortcut_single("Alt+n"@);
}

/// `Alt+p` denotes its chords.
proof fn lemma_content_key_1()
    ensures
        spec_parse_shortcut("Alt+p"@) == Some(seq![(false, true, false, false, "p"@)]),
{
    lemma_modifier_names();
    reveal_strlit("Alt");
    reveal_strlit("Alt+p");
    reveal_strlit("p");
    lemma_chord_key("p"@);
    assert("Alt+p"@ =~= "Alt"@ + seq!['+'] + "p"@);
    lemma_chord_mod("Alt"@, "p"@);
    lemma_shortcut_single("Alt+p"@);
}

/// Every entry of the `content` list names a shortcut and a known action, and no two
/// entries denote the same shortcut.
#[verifier::spinoff_prover]
proof fn lemma_content_valid()
    ensures
        spec_field_valid(spec_content()),
{
    lemma_content_key_0();
    lemma_content_key_1();
    assert(Action::ContentNext.spec_name() == "content.next"@);
    assert(Action::ContentPrev.spec_name() == "content.prev"@);
    let kas = spec_content();
    let vals: Seq<Option<Seq<ChordView>>> = seq![
        Some(seq![(false, true, false, false, "n"@)]),
        Some(seq![(false, true, false, false, "p"@)]),
    ];
    assert forall|i: int| 0 <= i < kas.len() implies #[trigger] spec_parse_shortcut(kas[i].0) == vals[i]
        && (#[trigger] spec_parse_action(kas[i].1)) is Some by {
        if i == 0 {
            assert(kas[0] == ("Alt+n"@, "content.next"@));
        } else if i == 1 {
            assert(kas[1] == ("Alt+p"@, "content.prev"@));
        }
    }
    reveal_strlit("n");
    reveal_strlit("p");
    assert(vals[0]->Some_0[0].4[0] != vals[1]->Some_0[0].4[0]);
    assert forall|i: int, j: int| 0 <= i < j < kas.len() implies #[trigger] spec_parse_shortcut(kas[i].0)
        != #[trigger] spec_parse_shortcut(kas[j].0) by {
        assert(i == 0 || i == 1);
        assert(j == 0 || j == 1);
    }
}

/// `Ctrl+n` denotes its chords.
proof fn lemma_sidebar_key_0()
    ensures
        spec_parse_shortcut("Ctrl+n"@) == Some(seq![(true, false, false, false, "n"@)]),
{
    lemma_modifier_names();
    reveal_strlit("Ctrl");
    reveal_strlit("Ctrl+n");
    reveal_strlit("n");
    lemma_chord_key("n"@);
    assert("Ctrl+n"@ =~= "Ctrl"@ + seq!['+'] + "n"@);
    lemma_chord_mod("Ctrl"@, "n"@);
    lemma_shortcut_single("Ctrl+n"@);
}

/// `Ctrl+p` denotes its chords.
proof fn lemma_sidebar_key_1()
    ensures
        spec_parse_shortcut("Ctrl+p"@) == Some(seq![(true, false, false, false, "p"@)]),
{
    lemma_modifier_names();
    reveal_strlit("Ctrl");
    reveal_strlit("Ctrl+p");
    reveal_strlit("p");
    lemma_chord_key("p"@);
    assert("Ctrl+p"@ =~= "Ctrl"@ + seq!['+'] + "p"@);
    lemma_chord_mod("Ctrl"@, "p"@);
    lemma_shortcut_single("Ctrl+p"@);
}

/// `Ctrl+f` denotes its chords.
proof fn lemma_sidebar_key_2()
    ensures
        spec_parse_shortcut("Ctrl+f"@) == Some(seq![(true, false, false, false, "f"@)]),
{
    lemma_modifier_names();
    reveal_strlit("Ctrl");
    reveal_strlit("Ctrl+f");
    reveal_strlit("f");
    lemma_chord_key("f"@);
    assert("Ctrl+f"@ =~= "Ctrl"@ + seq!['+'] + "f"@);
    lemma_chord_mod("Ctrl"@, "f"@);
    lemma_shortcut_single("Ctrl+f"@);
}

/// `Ctrl+b` denotes its chords.
proof fn lemma_sidebar_key_3()
    ensures
        spec_parse_shortcut("Ctrl+b"@) == Some(seq![(true, false, false, false, "b"@)]),
{
    lemma_modifier_names();
    reveal_strlit("Ctrl");
    reveal_strlit("Ctrl+b");
    reveal_strlit("b");
    lemma_chord_key("b"@);
    assert("Ctrl+b"@ =~= "Ctrl"@ + seq!['+'] + "b"@);
    lemma_chord_mod("Ctrl"@, "b"@);
    lemma_shortcut_single("Ctrl+b"@);
}

/// Every entry of the `sidebar` list names a shortcut and a known action, and no two
/// entries denote the same shortcut.
#[verifier::spinoff_prover]
proof fn lemma_sidebar_valid()
    ensures
        spec_field_valid(spec_sidebar()),
{
    lemma_sidebar_key_0();
    lemma_sidebar_key_1();
    lemma_sidebar_key_2();
    lemma_sidebar_key_3();
    assert(Action::CursorCollapse.spec_name() == "cursor.collapse"@);
    assert(Action::CursorDown.spec_name() == "cursor.down"@);
    assert(Action::CursorEnter.spec_name() == "cursor.enter"@);
    assert(Action::CursorUp.spec_name() == "cursor.up"@);
    let kas = spec_sidebar();
    let vals: Seq<Option<Seq<ChordView>>> = seq![
        Some(seq![(true, false, false, false, "n"@)]),
        Some(seq![(true, false, false, false, "p"@)]),
        Some(seq![(true, false, false, false, "f"@)]),
        Some(seq![(true, false, false, false, "b"@)]),
    ];
    assert forall|i: int| 0 <= i < kas.len() implies #[trigger] spec_parse_shortcut(kas[i].0) == vals[i]
        && (#[trigger] spec_parse_action(kas[i].1)) is Some by {
        if i == 0 {
            assert(kas[0] == ("Ctrl+n"@, "cursor.down"@));
        } else if i == 1 {
            assert(kas[1] == ("Ctrl+p"@, "cursor.up"@));
        } else if i == 2 {
            assert(kas[2] == ("Ctrl+f"@, "cursor.enter"@));
        } else if i == 3 {
            assert(kas[3] == ("Ctrl+b"@, "cursor.collapse"@));
        }
    }
    reveal_strlit("b");
    reveal_strlit("f");
    reveal_strlit("n");
    reveal_strlit("p");
    assert(vals[0]->Some_0[0].4[0] != vals[1]->Some_0[0].4[0]);
    assert(vals[0]->Some_0[0].4[0] != vals[2]->Some_0[0].4[0]);
    assert(vals[0]->Some_0[0].4[0] != vals[3]->Some_0[0].4[0]);
    assert(vals[1]->Some_0[0].4[0] != vals[2]->Some_0[0].4[0]);
    assert(vals[1]->Some_0[0].4[0] != vals[3]->Some_0[0].4[0]);
    assert(vals[2]->Some_0[0].4[0] != vals[3]->Some_0[0].4[0]);
    assert forall|i: int, j: int| 0 <= i < j < kas.len() implies #[trigger] spec_parse_shortcut(kas[i].0)
        != #[trigger] spec_parse_shortcut(kas[j].0) by {
        assert(i == 0 || i == 1 || i == 2 || i == 3);
        assert(j == 0 || j == 1 || j == 2 || j == 3);
    }
}

/// The `quick_access` list is empty, so it is valid.
proof fn lemma_quick_access_valid()
    ensures
        spec_field_valid(spec_quick_access()),
{
}

/// The `right_sidebar` list is empty, so it is valid.
proof fn lemma_right_sidebar_valid()
    ensures
        spec_field_valid(spec_right_sidebar()),
{
}

/// `Ctrl+s` denotes its chords.
proof fn lemma_search_key_0()
    ensures
        spec_parse_shortcut("Ctrl+s"@) == Some(seq![(true, false, false, false, "s"@)]),
{
    lemma_modifier_names();
    reveal_strlit("Ctrl");
    reveal_strlit("Ctrl+s");
    reveal_strlit("s");
    lemma_chord_key("s"@);
    assert("Ctrl+s"@ =~= "Ctrl"@ + seq!['+'] + "s"@);
    lemma_chord_mod("Ctrl"@, "s"@);
    lemma_shortcut_single("Ctrl+s"@);
}

/// `Ctrl+r` denotes its chords.
proof fn lemma_search_key_1()
    ensures
        spec_parse_shortcut("Ctrl+r"@) == Some(seq![(true, false, false, false, "r"@)]),
{
    lemma_modifier_names();
    reveal_strlit("Ctrl");
    reveal_strlit("Ctrl+r");
    reveal_strlit("r");
    lemma_chord_key("r"@);
    assert("Ctrl+r"@ =~= "Ctrl"@ + seq!['+'] + "r"@);
    lemma_chord_mod("Ctrl"@, "r"@);
    lemma_shortcut_single("Ctrl+r"@);
}

/// Every entry of the `search` list names a shortcut and a known action, and no two
/// entries denote the same shortcut.
#[verifier::spinoff_prover]
proof fn lemma_search_valid()
    ensures
        spec_field_valid(spec_search()),
{
    lemma_search_key_0();
    lemma_search_key_1();
    assert(Action::SearchNext.spec_name() == "search.next"@);
    assert(Action::SearchPrev.spec_name() == "search.prev"@);
    let kas = spec_search();
    let vals: Seq<Option<Seq<ChordView>>> = seq![
        Some(seq![(true, false, false, false, "s"@)]),
        Some(seq![(true, false, false, false, "r"@)]),
    ];
    assert forall|i: int| 0 <= i < kas.len() implies #[trigger] spec_parse_shortcut(kas[i].0) == vals[i]
        && (#[trigger] spec_parse_action(kas[i].1)) is Some by {
        if i == 0 {
            assert(kas[0] == ("Ctrl+s"@, "search.next"@));
        } else if i == 1 {
            assert(kas[1] == ("Ctrl+r"@, "search.prev"@));
        }
    }
    reveal_strlit("r");
    reveal_strlit("s");
    assert(vals[0]->Some_0[0].4[0] != vals[1]->Some_0[0].4[0]);
    assert forall|i: int, j: int| 0 <= i < j < kas.len() implies #[trigger] spec_parse_shortcut(kas[i].0)
        != #[trigger] spec_parse_shortcut(kas[j].0) by {
        assert(i == 0 || i == 1);
        assert(j == 0 || j == 1);
    }
}


} // verus!
