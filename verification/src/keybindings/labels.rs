//! Human-readable labels for actions and contexts, as the preferences and the
//! shortcut overlay show them.
use vstd::prelude::*;

use crate::keybindings::action::Action;
use crate::keybindings::context::KeyContext;
use crate::keybindings::hint::{spec_to_uppercase, to_uppercase};
use crate::text::{append_chars, append_str, chars_of, deep_chars, join_seqs, split_chars, split_seq, string_from_chars};

verus! {

broadcast use vstd::seq::group_seq_axioms;

/// The words of a dotted name: its `.`-separated parts, each split again at `_`,
/// in order; empty words are kept.
pub open spec fn spec_name_words(parts: Seq<Seq<char>>) -> Seq<Seq<char>>
    decreases parts.len(),
{
    if parts.len() == 0 {
        Seq::empty()
    } else {
        spec_name_words(parts.drop_last()) + split_seq(parts.last(), '_')
    }
}

/// A word with its first character in upper case (the rest kept as is).
pub open spec fn spec_capitalize(w: Seq<char>) -> Seq<char> {
    if w.len() == 0 { w } else { spec_to_uppercase(seq![w[0]]) + w.drop_first() }
}

/// The capitalized words.
pub open spec fn spec_capitalize_all(ws: Seq<Seq<char>>) -> Seq<Seq<char>> {
    ws.map_values(|w: Seq<char>| spec_capitalize(w))
}

/// The label of a dotted name: its words capitalized and joined with spaces
/// (`scroll.half_page_down` gives `Scroll Half Page Down`).
pub open spec fn spec_name_label(name: Seq<char>) -> Seq<char> {
    join_seqs(spec_capitalize_all(spec_name_words(split_seq(name, '.'))), seq![' '])
}

/// The word with its first character in upper case.
fn capitalize(w: &[char]) -> (r: Vec<char>)
    ensures
        r@ == spec_capitalize(w@),
{
    let mut out: Vec<char> = Vec::new();
    if w.len() == 0 {
        assert(out@ =~= w@);
        return out;
    }
    let mut first: Vec<char> = Vec::new();
    first.push(w[0]);
    let first_text = string_from_chars(first.as_slice());
    let upper = to_uppercase(first_text.as_str());
    assert(first_text@ =~= seq![w@[0]]);
    append_str(&mut out, upper.as_str());
    let mut i: usize = 1;
    while i < w.len()
        invariant
            1 <= i <= w@.len(),
            out@ == spec_to_uppercase(seq![w@[0]]) + w@.subrange(1, i as int),
        decreases w@.len() - i,
    {
        out.push(w[i]);
        assert(w@.subrange(1, i + 1) =~= w@.subrange(1, i as int).push(w@[i as int]));
        i += 1;
    }
    assert(w@.subrange(1, w@.len() as int) =~= w@.drop_first());
    out
}

/// The label of a dotted name.
pub fn name_label(name: &[char]) -> (r: Vec<char>)
    ensures
        r@ == spec_name_label(name@),
{
    let parts = split_chars(name, '.');
    let ghost ps = deep_chars(parts@);
    let ghost mut done: Seq<Seq<char>> = Seq::empty();
    let mut started = false;
    let mut out: Vec<char> = Vec::new();
    let mut i: usize = 0;
    assert(ps.take(0) =~= Seq::<Seq<char>>::empty());
    while i < parts.len()
        invariant
            ps == deep_chars(parts@),
            ps == split_seq(name@, '.'),
            i <= ps.len(),
            done == spec_name_words(ps.take(i as int)),
            started == (done.len() > 0),
            out@ == join_seqs(spec_capitalize_all(done), seq![' ']),
        decreases ps.len() - i,
    {
        assert(ps.take(i + 1).drop_last() =~= ps.take(i as int));
        let words = split_chars(parts[i].as_slice(), '_');
        let ghost ws = deep_chars(words@);
        let ghost start = done;
        let mut j: usize = 0;
        assert(ws.take(0) =~= Seq::<Seq<char>>::empty());
        assert(start + ws.take(0) =~= start);
        while j < words.len()
            invariant
                ws == deep_chars(words@),
                j <= ws.len(),
                done == start + ws.take(j as int),
                started == (done.len() > 0),
                out@ == join_seqs(spec_capitalize_all(done), seq![' ']),
            decreases ws.len() - j,
        {
            let ghost before = done;
            let piece = capitalize(words[j].as_slice());
            if started {
                out.push(' ');
            }
            append_chars(&mut out, piece.as_slice());
            proof {
                done = done.push(ws[j as int]);
                assert(start + ws.take(j + 1) =~= (start + ws.take(j as int)).push(ws[j as int]));
                assert(spec_capitalize_all(done).drop_last() =~= spec_capitalize_all(before));
                assert(spec_capitalize_all(done) =~= spec_capitalize_all(before).push(spec_capitalize(ws[j as int])));
            }
            started = true;
            j += 1;
        }
        assert(ws.take(ws.len() as int) =~= ws);
        assert(ws == split_seq(ps[i as int], '_'));
        i += 1;
    }
    assert(ps.take(ps.len() as int) =~= ps);
    out
}

/// Convert an action name like `scroll.down` to a label like `Scroll Down`.
pub fn action_label(action_str: &str) -> (r: String)
    ensures
        r@ == spec_name_label(action_str@),
{
    let cs = chars_of(action_str);
    let label = name_label(cs.as_slice());
    string_from_chars(label.as_slice())
}

/// The label of a context; no context means the global bindings.
pub open spec fn spec_context_label(context: Option<KeyContext>) -> Seq<char> {
    match context {
        None => "Global"@,
        Some(KeyContext::Content) => "Content"@,
        Some(KeyContext::Sidebar) => "Sidebar"@,
        Some(KeyContext::QuickAccess) => "Quick Access"@,
        Some(KeyContext::RightSidebar) => "Right Sidebar"@,
        Some(KeyContext::Search) => "Search"@,
    }
}

/// Human-readable label for a context.
pub fn context_label(context: Option<KeyContext>) -> (r: &'static str)
    ensures
        r@ == spec_context_label(context),
{
    match context {
        None => "Global",
        Some(KeyContext::Content) => "Content",
        Some(KeyContext::Sidebar) => "Sidebar",
        Some(KeyContext::QuickAccess) => "Quick Access",
        Some(KeyContext::RightSidebar) => "Right Sidebar",
        Some(KeyContext::Search) => "Search",
    }
}

} // verus!
