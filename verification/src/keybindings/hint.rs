//! Shortcut hints shown next to menu entries: `Cmd+Shift+o` as `⌘⇧O` or `Ctrl+Shift+O`.
use vstd::prelude::*;

use crate::config::{key_action_views, BindingSet, KeyAction, KeyActionView};
use crate::keybindings::context::KeyContext;
use crate::keybindings::shortcut::{lemma_split_join, lemma_split_no_sep};
use crate::text::{
    append_chars, append_str, chars_eq, chars_of, str_eq, concat_seqs, deep_chars, join_seqs,
    lemma_split_seq_nonempty, split_chars, split_seq, string_from_chars,
};

verus! {

/// How hints are drawn: with macOS menu symbols, or spelled out as on Windows and Linux.
#[derive(Debug, Clone, Copy, PartialEq, Eq, Structural)]
pub enum HintStyle {
    MacSymbols,
    Plain,
}

/// The result of `str::to_uppercase` on text with the characters `s` (Unicode case mapping).
pub uninterp spec fn spec_to_uppercase(s: Seq<char>) -> Seq<char>;

/// `str::to_uppercase`: the Unicode upper case of `s`.
#[verifier::external_body]
pub(crate) fn to_uppercase(s: &str) -> (r: String)
    ensures
        r@ == spec_to_uppercase(s@),
{
    s.to_uppercase()
}

/// Whether `k` is one character whose UTF-8 encoding is a single byte.
pub open spec fn is_single_byte_key(k: Seq<char>) -> bool {
    k.len() == 1 && (k[0] as u32) < 0x80
}

/// The hint for a key name on macOS.
pub open spec fn spec_key_name_mac(k: Seq<char>) -> Seq<char> {
    if k == "ArrowUp"@ { "↑"@ }
    else if k == "ArrowDown"@ { "↓"@ }
    else if k == "ArrowLeft"@ { "←"@ }
    else if k == "ArrowRight"@ { "→"@ }
    else if k == "Backspace"@ { "⌫"@ }
    else if k == "Enter"@ { "↩"@ }
    else if k == "Escape"@ { "⎋"@ }
    else if k == "Tab"@ { "⇥"@ }
    else if k == "Space"@ { "␠"@ }
    else if k == "PageUp"@ { "⇞"@ }
    else if k == "PageDown"@ { "⇟"@ }
    else if k == "Home"@ { "↖"@ }
    else if k == "End"@ { "↘"@ }
    else { spec_to_uppercase(k) }
}

/// The hint for a key name on Windows and Linux.
pub open spec fn spec_key_name_plain(k: Seq<char>) -> Seq<char> {
    if k == "ArrowUp"@ { "Up"@ }
    else if k == "ArrowDown"@ { "Down"@ }
    else if k == "ArrowLeft"@ { "Left"@ }
    else if k == "ArrowRight"@ { "Right"@ }
    else if k == "Escape"@ { "Esc"@ }
    else if k == "BracketLeft"@ { "["@ }
    else if k == "BracketRight"@ { "]"@ }
    else if k == "Equal"@ { "="@ }
    else if k == "Minus"@ { "-"@ }
    else if k == "Comma"@ { ","@ }
    else if k == "Slash"@ { "/"@ }
    else if is_single_byte_key(k) { spec_to_uppercase(k) }
    else { k }
}

/// The hint for a key name.
pub open spec fn spec_key_name_hint(k: Seq<char>, style: HintStyle) -> Seq<char> {
    match style {
        HintStyle::MacSymbols => spec_key_name_mac(k),
        HintStyle::Plain => spec_key_name_plain(k),
    }
}

/// The hint for one `+`-separated part of a shortcut.
pub open spec fn spec_part_hint(p: Seq<char>, style: HintStyle) -> Seq<char> {
    match style {
        HintStyle::MacSymbols => {
            if p == "Cmd"@ || p == "Meta"@ { "⌘"@ }
            else if p == "Shift"@ { "⇧"@ }
            else if p == "Alt"@ || p == "Option"@ { "⌥"@ }
            else if p == "Ctrl"@ || p == "Control"@ { "⌃"@ }
            else { spec_key_name_mac(p) }
        },
        HintStyle::Plain => {
            if p == "Cmd"@ || p == "Meta"@ || p == "Ctrl"@ || p == "Control"@ { "Ctrl"@ }
            else if p == "Shift"@ { "Shift"@ }
            else if p == "Alt"@ || p == "Option"@ { "Alt"@ }
            else { spec_plain_words_hint(p) }
        },
    }
}

/// The Windows and Linux hint for a key part that may hold several space-separated
/// chords (`w h` in `Ctrl+w h`): each word gets its key-name hint, joined by spaces.
pub open spec fn spec_plain_words_hint(p: Seq<char>) -> Seq<char> {
    join_seqs(split_seq(p, ' ').map_values(|w: Seq<char>| spec_key_name_plain(w)), seq![' '])
}

/// The hints of each part.
pub open spec fn spec_part_hints(ps: Seq<Seq<char>>, style: HintStyle) -> Seq<Seq<char>> {
    ps.map_values(|p: Seq<char>| spec_part_hint(p, style))
}

/// The hint for a shortcut: parts split at `+`; on macOS their hints are written
/// one after another, otherwise they are joined with `+`.
pub open spec fn spec_shortcut_hint(key: Seq<char>, style: HintStyle) -> Seq<char> {
    let hs = spec_part_hints(split_seq(key, '+'), style);
    match style {
        HintStyle::MacSymbols => concat_seqs(hs),
        HintStyle::Plain => join_seqs(hs, "+"@),
    }
}

fn is(s: &[char], lit: &str) -> (r: bool)
    ensures
        r == (s@ == lit@),
{
    chars_eq(s, chars_of(lit).as_slice())
}

/// The hint for a key name, as characters.
fn key_name_hint_chars(key: &[char], style: HintStyle) -> (r: Vec<char>)
    ensures
        r@ == spec_key_name_hint(key@, style),
{
    let lit: &str = match style {
        HintStyle::MacSymbols => {
            if is(key, "ArrowUp") { "↑" }
            else if is(key, "ArrowDown") { "↓" }
            else if is(key, "ArrowLeft") { "←" }
            else if is(key, "ArrowRight") { "→" }
            else if is(key, "Backspace") { "⌫" }
            else if is(key, "Enter") { "↩" }
            else if is(key, "Escape") { "⎋" }
            else if is(key, "Tab") { "⇥" }
            else if is(key, "Space") { "␠" }
            else if is(key, "PageUp") { "⇞" }
            else if is(key, "PageDown") { "⇟" }
            else if is(key, "Home") { "↖" }
            else if is(key, "End") { "↘" }
            else {
                let s = string_from_chars(key);
                let up = to_uppercase(s.as_str());
                return chars_of(up.as_str());
            }
        },
        HintStyle::Plain => {
            if is(key, "ArrowUp") { "Up" }
            else if is(key, "ArrowDown") { "Down" }
            else if is(key, "ArrowLeft") { "Left" }
            else if is(key, "ArrowRight") { "Right" }
            else if is(key, "Escape") { "Esc" }
            else if is(key, "BracketLeft") { "[" }
            else if is(key, "BracketRight") { "]" }
            else if is(key, "Equal") { "=" }
            else if is(key, "Minus") { "-" }
            else if is(key, "Comma") { "," }
            else if is(key, "Slash") { "/" }
            else if key.len() == 1 && (key[0] as u32) < 0x80 {
                let s = string_from_chars(key);
                let up = to_uppercase(s.as_str());
                return chars_of(up.as_str());
            } else {
                let mut out: Vec<char> = Vec::new();
                append_chars(&mut out, key);
                assert(out@ =~= key@);
                return out;
            }
        },
    };
    chars_of(lit)
}

/// The hint for a key name, such as `↓` (macOS) or `Down` for `ArrowDown`.
pub fn format_key_name_hint(key: &str, style: HintStyle) -> (r: String)
    ensures
        r@ == spec_key_name_hint(key@, style),
{
    let k = chars_of(key);
    let v = key_name_hint_chars(k.as_slice(), style);
    string_from_chars(v.as_slice())
}

/// The Windows and Linux hint for a key part, word by word.
fn plain_words_hint_chars(p: &[char]) -> (r: Vec<char>)
    ensures
        r@ == spec_plain_words_hint(p@),
{
    let words = split_chars(p, ' ');
    let ghost ws = deep_chars(words@);
    let ghost hs = ws.map_values(|w: Seq<char>| spec_key_name_plain(w));
    let mut out: Vec<char> = Vec::new();
    let mut i: usize = 0;
    assert(hs.take(0) =~= Seq::<Seq<char>>::empty());
    while i < words.len()
        invariant
            ws == deep_chars(words@),
            ws == split_seq(p@, ' '),
            hs == ws.map_values(|w: Seq<char>| spec_key_name_plain(w)),
            i <= ws.len(),
            out@ == join_seqs(hs.take(i as int), seq![' ']),
        decreases ws.len() - i,
    {
        let h = key_name_hint_chars(words[i].as_slice(), HintStyle::Plain);
        assert(hs.take(i + 1).drop_last() =~= hs.take(i as int));
        assert(hs.take(i + 1).last() == h@);
        if i > 0 {
            out.push(' ');
        } else {
            assert(hs.take(1) =~= seq![h@]);
        }
        append_chars(&mut out, h.as_slice());
        i += 1;
    }
    assert(hs.take(ws.len() as int) =~= hs);
    out
}

/// The hint for one part of a shortcut.
fn part_hint_chars(p: &[char], style: HintStyle) -> (r: Vec<char>)
    ensures
        r@ == spec_part_hint(p@, style),
{
    let lit: &str = match style {
        HintStyle::MacSymbols => {
            if is(p, "Cmd") || is(p, "Meta") { "⌘" }
            else if is(p, "Shift") { "⇧" }
            else if is(p, "Alt") || is(p, "Option") { "⌥" }
            else if is(p, "Ctrl") || is(p, "Control") { "⌃" }
            else { return key_name_hint_chars(p, style); }
        },
        HintStyle::Plain => {
            if is(p, "Cmd") || is(p, "Meta") || is(p, "Ctrl") || is(p, "Control") { "Ctrl" }
            else if is(p, "Shift") { "Shift" }
            else if is(p, "Alt") || is(p, "Option") { "Alt" }
            else { return plain_words_hint_chars(p); }
        },
    };
    chars_of(lit)
}

/// The hint for a shortcut, such as `⌘⇧O` (macOS) or `Ctrl+Shift+O` for `Cmd+Shift+o`,
/// and `⌃W H` or `Ctrl+W H` for the sequence `Ctrl+w h`.
pub fn format_shortcut_hint(key: &str, style: HintStyle) -> (r: String)
    ensures
        r@ == spec_shortcut_hint(key@, style),
{
    let k = chars_of(key);
    let parts = split_chars(k.as_slice(), '+');
    let ghost ps = split_seq(key@, '+');
    proof {
        lemma_split_seq_nonempty(key@, '+');
    }
    let mut out: Vec<char> = Vec::new();
    let mut i: usize = 0;
    let ghost hs = spec_part_hints(ps, style);
    assert(ps.take(0) =~= Seq::<Seq<char>>::empty());
    while i < parts.len()
        invariant
            ps == deep_chars(parts@),
            hs == spec_part_hints(ps, style),
            ps.len() >= 1,
            i <= ps.len(),
            match style {
                HintStyle::MacSymbols => out@ == concat_seqs(hs.take(i as int)),
                HintStyle::Plain => out@ == join_seqs(hs.take(i as int), "+"@),
            },
        decreases ps.len() - i,
    {
        let h = part_hint_chars(parts[i].as_slice(), style);
        assert(hs.take(i + 1).drop_last() =~= hs.take(i as int));
        assert(hs.take(i + 1).last() == h@);
        match style {
            HintStyle::MacSymbols => {},
            HintStyle::Plain => {
                if i > 0 {
                    append_str(&mut out, "+");
                } else {
                    assert(hs.take(1) =~= seq![h@]);
                }
            },
        }
        append_chars(&mut out, h.as_slice());
        i += 1;
    }
    assert(hs.take(ps.len() as int) =~= hs);
    string_from_chars(out.as_slice())
}

/// The key of the first binding whose action is `action`.
pub open spec fn spec_find_key(kas: Seq<KeyActionView>, action: Seq<char>) -> Option<Seq<char>>
    decreases kas.len(),
{
    if kas.len() == 0 {
        None
    } else if kas[0].1 == action {
        Some(kas[0].0)
    } else {
        spec_find_key(kas.drop_first(), action)
    }
}

/// The key of the first binding whose action is `action`.
pub fn find_key_for_action<'a>(bindings: &'a [KeyAction], action: &str) -> (r: Option<&'a str>)
    ensures
        match r {
            Some(k) => spec_find_key(key_action_views(bindings@), action@) == Some(k@),
            None => spec_find_key(key_action_views(bindings@), action@) is None,
        },
{
    let ghost kas = key_action_views(bindings@);
    let mut i: usize = 0;
    assert(kas.skip(0) =~= kas);
    while i < bindings.len()
        invariant
            kas == key_action_views(bindings@),
            i <= kas.len(),
            spec_find_key(kas, action@) == spec_find_key(kas.skip(i as int), action@),
        decreases kas.len() - i,
    {
        assert(kas.skip(i as int)[0] == bindings@[i as int]@);
        assert(kas.skip(i as int).drop_first() =~= kas.skip(i + 1));
        if str_eq(bindings[i].action.as_str(), action) {
            return Some(bindings[i].key.as_str());
        }
        i += 1;
    }
    None
}

/// The binding list of a context.
pub fn bindings_for_context(bindings: &BindingSet, context: KeyContext) -> (r: &[KeyAction])
    ensures
        r@ == match context {
            KeyContext::Content => bindings.content@,
            KeyContext::Sidebar => bindings.sidebar@,
            KeyContext::QuickAccess => bindings.quick_access@,
            KeyContext::RightSidebar => bindings.right_sidebar@,
            KeyContext::Search => bindings.search@,
        },
{
    match context {
        KeyContext::Content => bindings.content.as_slice(),
        KeyContext::Sidebar => bindings.sidebar.as_slice(),
        KeyContext::QuickAccess => bindings.quick_access.as_slice(),
        KeyContext::RightSidebar => bindings.right_sidebar.as_slice(),
        KeyContext::Search => bindings.search.as_slice(),
    }
}

/// The key bound to `action`: in `context` first (when given), else among the global bindings.
pub open spec fn spec_hint_key(bindings: &BindingSet, action: Seq<char>, context: Option<KeyContext>) -> Option<Seq<char>> {
    let in_context = match context {
        Some(KeyContext::Content) => spec_find_key(key_action_views(bindings.content@), action),
        Some(KeyContext::Sidebar) => spec_find_key(key_action_views(bindings.sidebar@), action),
        Some(KeyContext::QuickAccess) => spec_find_key(key_action_views(bindings.quick_access@), action),
        Some(KeyContext::RightSidebar) => spec_find_key(key_action_views(bindings.right_sidebar@), action),
        Some(KeyContext::Search) => spec_find_key(key_action_views(bindings.search@), action),
        None => None,
    };
    if in_context is Some {
        in_context
    } else {
        spec_find_key(key_action_views(bindings.global@), action)
    }
}

/// A formatted shortcut hint for `action`; context bindings are preferred over global ones.
pub fn shortcut_hint_for_action(
    bindings: &BindingSet,
    action: &str,
    context: Option<KeyContext>,
    style: HintStyle,
) -> (r: Option<String>)
    ensures
        match spec_hint_key(bindings, action@, context) {
            Some(k) => r is Some && r->Some_0@ == spec_shortcut_hint(k, style),
            None => r is None,
        },
{
    let from_context = match context {
        Some(ctx) => find_key_for_action(bindings_for_context(bindings, ctx), action),
        None => None,
    };
    let key = match from_context {
        Some(k) => Some(k),
        None => find_key_for_action(bindings.global.as_slice(), action),
    };
    match key {
        Some(k) => Some(format_shortcut_hint(k, style)),
        None => None,
    }
}

/// A formatted shortcut hint from the global bindings.
pub fn shortcut_hint_for_global_action(bindings: &BindingSet, action: &str, style: HintStyle) -> (r: Option<String>)
    ensures
        match spec_hint_key(bindings, action@, None) {
            Some(k) => r is Some && r->Some_0@ == spec_shortcut_hint(k, style),
            None => r is None,
        },
{
    shortcut_hint_for_action(bindings, action, None, style)
}

/// A formatted shortcut hint in the given context.
pub fn shortcut_hint_for_context_action(
    bindings: &BindingSet,
    context: KeyContext,
    action: &str,
    style: HintStyle,
) -> (r: Option<String>)
    ensures
        match spec_hint_key(bindings, action@, Some(context)) {
            Some(k) => r is Some && r->Some_0@ == spec_shortcut_hint(k, style),
            None => r is None,
        },
{
    shortcut_hint_for_action(bindings, action, Some(context), style)
}

proof fn lemma_concat_cons(x: Seq<char>, ys: Seq<Seq<char>>)
    ensures
        concat_seqs(seq![x] + ys) == x + concat_seqs(ys),
    decreases ys.len(),
{
    if ys.len() == 0 {
        let l = seq![x];
        assert(seq![x] + ys =~= l);
        assert(l.drop_last() =~= Seq::<Seq<char>>::empty());
        assert(concat_seqs(l.drop_last()) == Seq::<char>::empty());
        assert(concat_seqs(l) =~= x + concat_seqs(ys));
    } else {
        lemma_concat_cons(x, ys.drop_last());
        assert((seq![x] + ys).drop_last() =~= seq![x] + ys.drop_last());
        assert((seq![x] + ys).last() == ys.last());
        assert(concat_seqs(seq![x] + ys) =~= x + concat_seqs(ys));
    }
}

proof fn lemma_join_cons(x: Seq<char>, ys: Seq<Seq<char>>, sep: Seq<char>)
    requires
        ys.len() > 0,
    ensures
        join_seqs(seq![x] + ys, sep) == x + sep + join_seqs(ys, sep),
    decreases ys.len(),
{
    let l = seq![x] + ys;
    if ys.len() == 1 {
        assert(l.drop_last() =~= seq![x]);
        assert(join_seqs(seq![x], sep) == x);
        assert(join_seqs(ys, sep) == ys[0]);
        assert(l.last() == ys[0]);
        assert(join_seqs(l, sep) =~= x + sep + join_seqs(ys, sep));
    } else {
        lemma_join_cons(x, ys.drop_last(), sep);
        assert(l.drop_last() =~= seq![x] + ys.drop_last());
        assert(l.last() == ys.last());
        assert(join_seqs(l, sep) =~= x + sep + join_seqs(ys, sep));
    }
}

/// The hint of a modifier part `m`, a `+` and the rest of a shortcut: the part's hint
/// written before the rest's hint (on Windows and Linux with a `+` between them).
proof fn lemma_hint_first_part(m: Seq<char>, rest: Seq<char>, style: HintStyle)
    requires
        forall|i: int| 0 <= i < m.len() ==> m[i] != '+',
    ensures
        spec_shortcut_hint(m + seq!['+'] + rest, style) == match style {
            HintStyle::MacSymbols => spec_part_hint(m, style) + spec_shortcut_hint(rest, style),
            HintStyle::Plain => spec_part_hint(m, style) + "+"@ + spec_shortcut_hint(rest, style),
        },
{
    lemma_split_join(m, rest, '+');
    lemma_split_no_sep(m, '+');
    lemma_split_seq_nonempty(rest, '+');
    let pr = split_seq(rest, '+');
    assert(spec_part_hints(seq![m] + pr, style) =~= seq![spec_part_hint(m, style)] + spec_part_hints(pr, style));
    match style {
        HintStyle::MacSymbols => lemma_concat_cons(spec_part_hint(m, style), spec_part_hints(pr, style)),
        HintStyle::Plain => lemma_join_cons(spec_part_hint(m, style), spec_part_hints(pr, style), "+"@),
    }
}

/// On macOS every modifier before a `+` is drawn as its symbol, in front of the hint of
/// the rest: Cmd and Meta as ⌘, Shift as ⇧, Alt and Option as ⌥, Ctrl and Control as ⌃.
pub proof fn lemma_mac_modifier_symbols(rest: Seq<char>)
    ensures
        spec_shortcut_hint("Cmd"@ + seq!['+'] + rest, HintStyle::MacSymbols) == "⌘"@ + spec_shortcut_hint(rest, HintStyle::MacSymbols),
        spec_shortcut_hint("Meta"@ + seq!['+'] + rest, HintStyle::MacSymbols) == "⌘"@ + spec_shortcut_hint(rest, HintStyle::MacSymbols),
        spec_shortcut_hint("Shift"@ + seq!['+'] + rest, HintStyle::MacSymbols) == "⇧"@ + spec_shortcut_hint(rest, HintStyle::MacSymbols),
        spec_shortcut_hint("Alt"@ + seq!['+'] + rest, HintStyle::MacSymbols) == "⌥"@ + spec_shortcut_hint(rest, HintStyle::MacSymbols),
        spec_shortcut_hint("Option"@ + seq!['+'] + rest, HintStyle::MacSymbols) == "⌥"@ + spec_shortcut_hint(rest, HintStyle::MacSymbols),
        spec_shortcut_hint("Ctrl"@ + seq!['+'] + rest, HintStyle::MacSymbols) == "⌃"@ + spec_shortcut_hint(rest, HintStyle::MacSymbols),
        spec_shortcut_hint("Control"@ + seq!['+'] + rest, HintStyle::MacSymbols) == "⌃"@ + spec_shortcut_hint(rest, HintStyle::MacSymbols),
{
    reveal_strlit("Cmd");
    reveal_strlit("Meta");
    reveal_strlit("Shift");
    reveal_strlit("Alt");
    reveal_strlit("Option");
    reveal_strlit("Ctrl");
    reveal_strlit("Control");
    assert("Meta"@.len() != "Cmd"@.len());
    assert("Shift"@.len() != "Cmd"@.len());
    assert("Shift"@.len() != "Meta"@.len());
    assert("Alt"@[0] != "Cmd"@[0]);
    assert("Alt"@.len() != "Meta"@.len());
    assert("Alt"@.len() != "Shift"@.len());
    assert("Option"@.len() != "Cmd"@.len());
    assert("Option"@.len() != "Meta"@.len());
    assert("Option"@.len() != "Shift"@.len());
    assert("Option"@.len() != "Alt"@.len());
    assert("Ctrl"@.len() != "Cmd"@.len());
    assert("Ctrl"@[0] != "Meta"@[0]);
    assert("Ctrl"@.len() != "Shift"@.len());
    assert("Ctrl"@.len() != "Alt"@.len());
    assert("Ctrl"@.len() != "Option"@.len());
    assert("Control"@.len() != "Cmd"@.len());
    assert("Control"@.len() != "Meta"@.len());
    assert("Control"@.len() != "Shift"@.len());
    assert("Control"@.len() != "Alt"@.len());
    assert("Control"@.len() != "Option"@.len());
    assert("Control"@.len() != "Ctrl"@.len());
    lemma_hint_first_part("Cmd"@, rest, HintStyle::MacSymbols);
    lemma_hint_first_part("Meta"@, rest, HintStyle::MacSymbols);
    lemma_hint_first_part("Shift"@, rest, HintStyle::MacSymbols);
    lemma_hint_first_part("Alt"@, rest, HintStyle::MacSymbols);
    lemma_hint_first_part("Option"@, rest, HintStyle::MacSymbols);
    lemma_hint_first_part("Ctrl"@, rest, HintStyle::MacSymbols);
    lemma_hint_first_part("Control"@, rest, HintStyle::MacSymbols);
}

/// On Windows and Linux every modifier before a `+` is spelled out, followed by `+` and
/// the hint of the rest: Cmd, Meta, Ctrl and Control as `Ctrl`, Shift as `Shift`, Alt and
/// Option as `Alt`.
pub proof fn lemma_plain_modifier_names(rest: Seq<char>)
    ensures
        spec_shortcut_hint("Cmd"@ + seq!['+'] + rest, HintStyle::Plain) == "Ctrl+"@ + spec_shortcut_hint(rest, HintStyle::Plain),
        spec_shortcut_hint("Meta"@ + seq!['+'] + rest, HintStyle::Plain) == "Ctrl+"@ + spec_shortcut_hint(rest, HintStyle::Plain),
        spec_shortcut_hint("Ctrl"@ + seq!['+'] + rest, HintStyle::Plain) == "Ctrl+"@ + spec_shortcut_hint(rest, HintStyle::Plain),
        spec_shortcut_hint("Control"@ + seq!['+'] + rest, HintStyle::Plain) == "Ctrl+"@ + spec_shortcut_hint(rest, HintStyle::Plain),
        spec_shortcut_hint("Shift"@ + seq!['+'] + rest, HintStyle::Plain) == "Shift+"@ + spec_shortcut_hint(rest, HintStyle::Plain),
        spec_shortcut_hint("Alt"@ + seq!['+'] + rest, HintStyle::Plain) == "Alt+"@ + spec_shortcut_hint(rest, HintStyle::Plain),
        spec_shortcut_hint("Option"@ + seq!['+'] + rest, HintStyle::Plain) == "Alt+"@ + spec_shortcut_hint(rest, HintStyle::Plain),
{
    reveal_strlit("Cmd");
    reveal_strlit("Meta");
    reveal_strlit("Shift");
    reveal_strlit("Alt");
    reveal_strlit("Option");
    reveal_strlit("Ctrl");
    reveal_strlit("Control");
    reveal_strlit("+");
    reveal_strlit("Ctrl+");
    reveal_strlit("Shift+");
    reveal_strlit("Alt+");
    assert("Meta"@.len() != "Cmd"@.len());
    assert("Shift"@.len() != "Cmd"@.len());
    assert("Shift"@.len() != "Meta"@.len());
    assert("Alt"@[0] != "Cmd"@[0]);
    assert("Alt"@.len() != "Meta"@.len());
    assert("Alt"@.len() != "Shift"@.len());
    assert("Option"@.len() != "Cmd"@.len());
    assert("Option"@.len() != "Meta"@.len());
    assert("Option"@.len() != "Shift"@.len());
    assert("Option"@.len() != "Alt"@.len());
    assert("Ctrl"@.len() != "Cmd"@.len());
    assert("Ctrl"@[0] != "Meta"@[0]);
    assert("Ctrl"@.len() != "Shift"@.len());
    assert("Ctrl"@.len() != "Alt"@.len());
    assert("Ctrl"@.len() != "Option"@.len());
    assert("Control"@.len() != "Cmd"@.len());
    assert("Control"@.len() != "Meta"@.len());
    assert("Control"@.len() != "Shift"@.len());
    assert("Control"@.len() != "Alt"@.len());
    assert("Control"@.len() != "Option"@.len());
    assert("Control"@.len() != "Ctrl"@.len());
    lemma_hint_first_part("Cmd"@, rest, HintStyle::Plain);
    lemma_hint_first_part("Meta"@, rest, HintStyle::Plain);
    lemma_hint_first_part("Ctrl"@, rest, HintStyle::Plain);
    lemma_hint_first_part("Control"@, rest, HintStyle::Plain);
    lemma_hint_first_part("Shift"@, rest, HintStyle::Plain);
    lemma_hint_first_part("Alt"@, rest, HintStyle::Plain);
    lemma_hint_first_part("Option"@, rest, HintStyle::Plain);
}

} // verus!
