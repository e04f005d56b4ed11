//! Shortcut notation: key chords such as `Cmd+Shift+o` and chord sequences such as `g g`.
//!
//! A shortcut is one or more chords separated by spaces. A chord is a key name,
//! optionally preceded by modifiers joined with `+`: `Cmd`/`Meta`/`Super`,
//! `Ctrl`/`Control`, `Alt`/`Option` and `Shift`.
use vstd::prelude::*;

use crate::text::{chars_eq, chars_of, deep_chars, lemma_split_seq_nonempty, split_chars, split_seq};

verus! {

/// One key press together with its held modifiers.
#[derive(Debug)]
pub struct KeyChord {
    pub ctrl: bool,
    pub alt: bool,
    pub shift: bool,
    pub meta: bool,
    pub key: Vec<char>,
}

/// A chord as plain values: `(ctrl, alt, shift, meta, key)`.
pub type ChordView = (bool, bool, bool, bool, Seq<char>);

impl View for KeyChord {
    type V = ChordView;

    open spec fn view(&self) -> ChordView {
        (self.ctrl, self.alt, self.shift, self.meta, self.key@)
    }
}

/// A sequence of chords pressed one after another.
#[derive(Debug)]
pub struct ShortcutSequence {
    pub chords: Vec<KeyChord>,
}

/// The views of a vector of chords.
pub open spec fn chord_views(v: Seq<KeyChord>) -> Seq<ChordView> {
    v.map_values(|c: KeyChord| c@)
}

impl View for ShortcutSequence {
    type V = Seq<ChordView>;

    open spec fn view(&self) -> Seq<ChordView> {
        chord_views(self.chords@)
    }
}

/// Error for text that is not a shortcut; holds the rejected text.
#[derive(Debug, Clone, PartialEq, Eq)]
pub struct ShortcutParseError(pub String);

/// Modifier keys.
#[derive(Debug, Clone, Copy, PartialEq, Eq, Structural)]
pub enum Modifier {
    Ctrl,
    Alt,
    Shift,
    Meta,
}

/// The modifier a name stands for, if any.
pub open spec fn spec_modifier(m: Seq<char>) -> Option<Modifier> {
    if m == "Cmd"@ || m == "Meta"@ || m == "Super"@ {
        Some(Modifier::Meta)
    } else if m == "Ctrl"@ || m == "Control"@ {
        Some(Modifier::Ctrl)
    } else if m == "Alt"@ || m == "Option"@ {
        Some(Modifier::Alt)
    } else if m == "Shift"@ {
        Some(Modifier::Shift)
    } else {
        None
    }
}

/// Flags `(ctrl, alt, shift, meta)` after also holding `m`.
pub open spec fn with_modifier(f: (bool, bool, bool, bool), m: Modifier) -> (bool, bool, bool, bool) {
    match m {
        Modifier::Ctrl => (true, f.1, f.2, f.3),
        Modifier::Alt => (f.0, true, f.2, f.3),
        Modifier::Shift => (f.0, f.1, true, f.3),
        Modifier::Meta => (f.0, f.1, f.2, true),
    }
}

/// The modifier flags that a list of modifier names sets, or `None` if one name is unknown.
pub open spec fn spec_modifier_flags(ms: Seq<Seq<char>>) -> Option<(bool, bool, bool, bool)>
    decreases ms.len(),
{
    if ms.len() == 0 {
        Some((false, false, false, false))
    } else {
        match (spec_modifier_flags(ms.drop_last()), spec_modifier(ms.last())) {
            (Some(f), Some(m)) => Some(with_modifier(f, m)),
            _ => None,
        }
    }
}

/// The chord that `tok` denotes: the part after the last `+` is the key and must not
/// be empty; every part before it must name a modifier.
pub open spec fn spec_parse_chord(tok: Seq<char>) -> Option<ChordView> {
    let parts = split_seq(tok, '+');
    let key = parts.last();
    if key.len() == 0 {
        None
    } else {
        match spec_modifier_flags(parts.drop_last()) {
            Some(f) => Some((f.0, f.1, f.2, f.3, key)),
            None => None,
        }
    }
}

/// The non-empty pieces of `ps`, in order.
pub open spec fn keep_nonempty(ps: Seq<Seq<char>>) -> Seq<Seq<char>>
    decreases ps.len(),
{
    if ps.len() == 0 {
        Seq::empty()
    } else if ps.last().len() == 0 {
        keep_nonempty(ps.drop_last())
    } else {
        keep_nonempty(ps.drop_last()).push(ps.last())
    }
}

/// The space-separated words of `s`.
pub open spec fn spec_words(s: Seq<char>) -> Seq<Seq<char>> {
    keep_nonempty(split_seq(s, ' '))
}

/// The chords of a list of words, or `None` if one word is not a chord.
pub open spec fn spec_parse_chords(ws: Seq<Seq<char>>) -> Option<Seq<ChordView>>
    decreases ws.len(),
{
    if ws.len() == 0 {
        Some(Seq::empty())
    } else {
        match (spec_parse_chords(ws.drop_last()), spec_parse_chord(ws.last())) {
            (Some(cs), Some(c)) => Some(cs.push(c)),
            _ => None,
        }
    }
}

/// The shortcut that `s` denotes: at least one word, every word a chord.
pub open spec fn spec_parse_shortcut(s: Seq<char>) -> Option<Seq<ChordView>> {
    let ws = spec_words(s);
    if ws.len() == 0 {
        None
    } else {
        spec_parse_chords(ws)
    }
}

/// The modifier a name stands for.
fn parse_modifier(m: &[char]) -> (r: Option<Modifier>)
    ensures
        r == spec_modifier(m@),
{
    if chars_eq(m, chars_of("Cmd").as_slice()) || chars_eq(m, chars_of("Meta").as_slice())
        || chars_eq(m, chars_of("Super").as_slice()) {
        Some(Modifier::Meta)
    } else if chars_eq(m, chars_of("Ctrl").as_slice()) || chars_eq(m, chars_of("Control").as_slice()) {
        Some(Modifier::Ctrl)
    } else if chars_eq(m, chars_of("Alt").as_slice()) || chars_eq(m, chars_of("Option").as_slice()) {
        Some(Modifier::Alt)
    } else if chars_eq(m, chars_of("Shift").as_slice()) {
        Some(Modifier::Shift)
    } else {
        None
    }
}

/// Parse one chord such as `Ctrl+w`.
pub fn parse_chord(tok: &[char]) -> (r: Option<KeyChord>)
    ensures
        match r {
            Some(c) => spec_parse_chord(tok@) == Some(c@),
            None => spec_parse_chord(tok@) is None,
        },
{
    let parts = split_chars(tok, '+');
    proof {
        lemma_split_seq_nonempty(tok@, '+');
    }
    let n = parts.len();
    let ghost ps = split_seq(tok@, '+');
    assert(ps.len() == n);
    let mut flags: (bool, bool, bool, bool) = (false, false, false, false);
    let mut i: usize = 0;
    while i + 1 < n
        invariant
            n == parts@.len(),
            n >= 1,
            ps == deep_chars(parts@),
            ps == split_seq(tok@, '+'),
            i + 1 <= n,
            spec_modifier_flags(ps.drop_last().take(i as int)) == Some(flags),
        decreases n - i,
    {
        assert(ps.drop_last().take(i + 1).drop_last() =~= ps.drop_last().take(i as int));
        assert(ps.drop_last().take(i + 1).last() == parts@[i as int]@);
        match parse_modifier(parts[i].as_slice()) {
            Some(m) => {
                flags = match m {
                    Modifier::Ctrl => (true, flags.1, flags.2, flags.3),
                    Modifier::Alt => (flags.0, true, flags.2, flags.3),
                    Modifier::Shift => (flags.0, flags.1, true, flags.3),
                    Modifier::Meta => (flags.0, flags.1, flags.2, true),
                };
            },
            None => {
                proof {
                    lemma_modifier_flags_prefix_fails(ps.drop_last(), i as int + 1);
                    assert(spec_modifier_flags(ps.drop_last()) is None);
                    assert(ps == split_seq(tok@, '+'));
                    assert(spec_parse_chord(tok@) is None);
                }
                return None;
            },
        }
        i += 1;
    }
    assert(ps.drop_last().take(i as int) =~= ps.drop_last());
    let key_src = &parts[n - 1];
    if key_src.len() == 0 {
        return None;
    }
    let mut key: Vec<char> = Vec::new();
    let mut j: usize = 0;
    while j < key_src.len()
        invariant
            j <= key_src@.len(),
            key@ == key_src@.take(j as int),
        decreases key_src@.len() - j,
    {
        key.push(key_src[j]);
        j += 1;
    }
    assert(key@ =~= key_src@);
    Some(KeyChord { ctrl: flags.0, alt: flags.1, shift: flags.2, meta: flags.3, key })
}

/// Once a prefix of the modifier names fails, the whole list fails.
proof fn lemma_modifier_flags_prefix_fails(ms: Seq<Seq<char>>, k: int)
    requires
        0 <= k <= ms.len(),
        spec_modifier_flags(ms.take(k)) is None,
    ensures
        spec_modifier_flags(ms) is None,
    decreases ms.len() - k,
{
    if k < ms.len() {
        assert(ms.take(k + 1).drop_last() =~= ms.take(k));
        lemma_modifier_flags_prefix_fails(ms, k + 1);
    } else {
        assert(ms.take(k) =~= ms);
    }
}

/// Parsed chords correspond one to one to the words.
proof fn lemma_parse_chords_len(ws: Seq<Seq<char>>)
    ensures
        spec_parse_chords(ws) matches Some(cs) ==> cs.len() == ws.len(),
    decreases ws.len(),
{
    if ws.len() > 0 {
        lemma_parse_chords_len(ws.drop_last());
    }
}

/// Once a prefix of the words fails to parse, the whole list fails.
proof fn lemma_parse_chords_prefix_fails(ws: Seq<Seq<char>>, k: int)
    requires
        0 <= k <= ws.len(),
        spec_parse_chords(ws.take(k)) is None,
    ensures
        spec_parse_chords(ws) is None,
    decreases ws.len() - k,
{
    if k < ws.len() {
        assert(ws.take(k + 1).drop_last() =~= ws.take(k));
        lemma_parse_chords_prefix_fails(ws, k + 1);
    } else {
        assert(ws.take(k) =~= ws);
    }
}

impl ShortcutSequence {
    /// Parse shortcut notation such as `Cmd+n` or `Ctrl+w h`.
    ///
    /// Succeeds exactly when `spec_parse_shortcut` gives a shortcut, and returns it.
    pub fn parse(s: &str) -> (r: Result<ShortcutSequence, ShortcutParseError>)
        ensures
            match r {
                Ok(q) => spec_parse_shortcut(s@) == Some(q@),
                Err(e) => spec_parse_shortcut(s@) is None && e.0@ == s@,
            },
    {
        let text = chars_of(s);
        let pieces = split_chars(text.as_slice(), ' ');
        let ghost ps = split_seq(s@, ' ');
        let mut chords: Vec<KeyChord> = Vec::new();
        let mut i: usize = 0;
        assert(ps.take(0) =~= Seq::<Seq<char>>::empty());
        while i < pieces.len()
            invariant
                ps == deep_chars(pieces@),
                ps == split_seq(s@, ' '),
                i <= pieces@.len(),
                spec_parse_chords(keep_nonempty(ps.take(i as int))) == Some(chord_views(chords@)),
            decreases pieces@.len() - i,
        {
            assert(ps.take(i + 1).drop_last() =~= ps.take(i as int));
            assert(ps.take(i + 1).last() == pieces@[i as int]@);
            let ghost prev_words = keep_nonempty(ps.take(i as int));
            if pieces[i].len() > 0 {
                assert(keep_nonempty(ps.take(i + 1)) == prev_words.push(pieces@[i as int]@));
                assert(prev_words.push(pieces@[i as int]@).drop_last() =~= prev_words);
                match parse_chord(pieces[i].as_slice()) {
                    Some(c) => {
                        let ghost before = chords@;
                        chords.push(c);
                        assert(chord_views(chords@) =~= chord_views(before).push(c@));
                    },
                    None => {
                        proof {
                            let ws = keep_nonempty(ps);
                            lemma_keep_nonempty_prefix(ps, i as int + 1);
                            assert(spec_parse_chords(keep_nonempty(ps.take(i + 1))) is None);
                            lemma_parse_chords_prefix_fails(ws, keep_nonempty(ps.take(i + 1)).len() as int);
                            assert(spec_parse_chords(ws) is None);
                            assert(ws.len() > 0);
                        }
                        return Err(ShortcutParseError(s.to_owned()));
                    },
                }
            }
            i += 1;
        }
        assert(ps.take(pieces@.len() as int) =~= ps);
        proof {
            lemma_parse_chords_len(keep_nonempty(ps));
        }
        if chords.len() == 0 {
            return Err(ShortcutParseError(s.to_owned()));
        }
        Ok(ShortcutSequence { chords })
    }
}

/// The non-empty pieces of a prefix are a prefix of the non-empty pieces.
proof fn lemma_keep_nonempty_prefix(ps: Seq<Seq<char>>, k: int)
    requires
        0 <= k <= ps.len(),
    ensures
        keep_nonempty(ps.take(k)).len() <= keep_nonempty(ps).len(),
        keep_nonempty(ps).take(keep_nonempty(ps.take(k)).len() as int) == keep_nonempty(ps.take(k)),
    decreases ps.len() - k,
{
    if k < ps.len() {
        lemma_keep_nonempty_prefix(ps, k + 1);
        assert(ps.take(k + 1).drop_last() =~= ps.take(k));
        let a = keep_nonempty(ps.take(k));
        let b = keep_nonempty(ps.take(k + 1));
        let w = keep_nonempty(ps);
        assert(w.take(a.len() as int) =~= w.take(b.len() as int).take(a.len() as int));
        assert(b.take(a.len() as int) =~= a);
    } else {
        assert(ps.take(k) =~= ps);
        assert(keep_nonempty(ps).take(keep_nonempty(ps).len() as int) =~= keep_nonempty(ps));
    }
}

/// Parsing through the standard `FromStr` trait.
impl std::str::FromStr for ShortcutSequence {
    type Err = ShortcutParseError;

    fn from_str(s: &str) -> (r: Result<ShortcutSequence, ShortcutParseError>)
        ensures
            match r {
                Ok(q) => spec_parse_shortcut(s@) == Some(q@),
                Err(e) => spec_parse_shortcut(s@) is None && e.0@ == s@,
            },
    {
        ShortcutSequence::parse(s)
    }
}

/// Whether two chords are the same key press.
pub fn chord_eq(a: &KeyChord, b: &KeyChord) -> (r: bool)
    ensures
        r == (a@ == b@),
{
    a.ctrl == b.ctrl && a.alt == b.alt && a.shift == b.shift && a.meta == b.meta && chars_eq(
        a.key.as_slice(),
        b.key.as_slice(),
    )
}

/// An independent copy of a chord.
pub fn chord_clone(c: &KeyChord) -> (r: KeyChord)
    ensures
        r@ == c@,
{
    let mut key: Vec<char> = Vec::new();
    let mut j: usize = 0;
    while j < c.key.len()
        invariant
            j <= c.key@.len(),
            key@ == c.key@.take(j as int),
        decreases c.key@.len() - j,
    {
        key.push(c.key[j]);
        j += 1;
    }
    assert(key@ =~= c.key@);
    KeyChord { ctrl: c.ctrl, alt: c.alt, shift: c.shift, meta: c.meta, key }
}

// ---------------------------------------------------------------------------
// How the notation composes: these facts let a reader (and Verus) work out the
// shortcut that a written key denotes, one `+` or space at a time.
// ---------------------------------------------------------------------------

/// Text without the separator is one piece.
pub proof fn lemma_split_no_sep(s: Seq<char>, sep: char)
    requires
        forall|i: int| 0 <= i < s.len() ==> s[i] != sep,
    ensures
        split_seq(s, sep) == seq![s],
    decreases s.len(),
{
    if s.len() > 0 {
        let q = s.drop_last();
        assert forall|i: int| 0 <= i < q.len() implies q[i] != sep by {
            assert(q[i] == s[i]);
        }
        lemma_split_no_sep(q, sep);
        assert(s[s.len() - 1] != sep);
        assert(q.push(s.last()) =~= s);
        assert(split_seq(s, sep) =~= seq![s]);
    } else {
        assert(s =~= Seq::<char>::empty());
    }
}

/// Splitting at a separator between two texts gives the pieces of each, in turn.
pub proof fn lemma_split_join(a: Seq<char>, b: Seq<char>, sep: char)
    ensures
        split_seq(a + seq![sep] + b, sep) == split_seq(a, sep) + split_seq(b, sep),
    decreases b.len(),
{
    lemma_split_seq_nonempty(a, sep);
    lemma_split_seq_nonempty(b, sep);
    let t = a + seq![sep] + b;
    if b.len() == 0 {
        assert(t.drop_last() =~= a);
        assert(split_seq(b, sep) =~= seq![Seq::<char>::empty()]);
        assert(split_seq(t, sep) =~= split_seq(a, sep) + split_seq(b, sep));
    } else {
        let b0 = b.drop_last();
        lemma_split_join(a, b0, sep);
        lemma_split_seq_nonempty(b0, sep);
        assert(t.drop_last() =~= a + seq![sep] + b0);
        assert(t.last() == b.last());
        let pa = split_seq(a, sep);
        let pb0 = split_seq(b0, sep);
        if b.last() == sep {
            assert(split_seq(t, sep) =~= pa + split_seq(b, sep));
        } else {
            assert(split_seq(t, sep) =~= pa + split_seq(b, sep));
        }
    }
}

/// Keeping the non-empty pieces of two lists in turn.
pub proof fn lemma_keep_nonempty_concat(p: Seq<Seq<char>>, q: Seq<Seq<char>>)
    ensures
        keep_nonempty(p + q) == keep_nonempty(p) + keep_nonempty(q),
    decreases q.len(),
{
    if q.len() == 0 {
        assert(p + q =~= p);
        assert(keep_nonempty(p) + keep_nonempty(q) =~= keep_nonempty(p));
    } else {
        lemma_keep_nonempty_concat(p, q.drop_last());
        assert((p + q).drop_last() =~= p + q.drop_last());
        assert((p + q).last() == q.last());
        if q.last().len() == 0 {
        } else {
            assert(keep_nonempty(p + q) =~= keep_nonempty(p) + keep_nonempty(q));
        }
    }
}

/// Parsing a first word before the others.
pub proof fn lemma_parse_chords_prepend(w: Seq<char>, ws: Seq<Seq<char>>)
    ensures
        spec_parse_chords(seq![w] + ws) == match (spec_parse_chord(w), spec_parse_chords(ws)) {
            (Some(c), Some(cs)) => Some(seq![c] + cs),
            _ => None,
        },
    decreases ws.len(),
{
    let l = seq![w] + ws;
    if ws.len() == 0 {
        assert(l =~= seq![w]);
        assert(l.drop_last() =~= Seq::<Seq<char>>::empty());
        assert(spec_parse_chords(l.drop_last()) == Some(Seq::<ChordView>::empty()));
        assert(l.last() == w);
        assert(spec_parse_chords(ws) == Some(Seq::<ChordView>::empty()));
        match spec_parse_chord(w) {
            Some(c) => {
                assert(Seq::<ChordView>::empty().push(c) =~= seq![c] + Seq::<ChordView>::empty());
            },
            None => {},
        }
    } else {
        let ws0 = ws.drop_last();
        lemma_parse_chords_prepend(w, ws0);
        assert(l.drop_last() =~= seq![w] + ws0);
        assert(l.last() == ws.last());
        match (spec_parse_chord(w), spec_parse_chords(ws0), spec_parse_chord(ws.last())) {
            (Some(c), Some(cs), Some(d)) => {
                assert(spec_parse_chords(ws) == Some(cs.push(d)));
                assert((seq![c] + cs).push(d) =~= seq![c] + cs.push(d));
            },
            (Some(c), Some(cs), None) => {
                assert(spec_parse_chords(ws) is None);
            },
            (Some(c), None, _) => {
                assert(spec_parse_chords(ws) is None);
            },
            (None, _, _) => {},
        }
    }
}

/// The modifier flags of a first name before the others.
pub proof fn lemma_flags_prepend(m: Seq<char>, ms: Seq<Seq<char>>)
    ensures
        spec_modifier_flags(seq![m] + ms) == match (spec_modifier(m), spec_modifier_flags(ms)) {
            (Some(x), Some(f)) => Some(with_modifier(f, x)),
            _ => None,
        },
    decreases ms.len(),
{
    let l = seq![m] + ms;
    if ms.len() == 0 {
        assert(l =~= seq![m]);
        assert(l.drop_last() =~= Seq::<Seq<char>>::empty());
        assert(l.last() == m);
        assert(spec_modifier_flags(l.drop_last()) == Some((false, false, false, false)));
        assert(spec_modifier_flags(ms) == Some((false, false, false, false)));
    } else {
        let ms0 = ms.drop_last();
        lemma_flags_prepend(m, ms0);
        assert(l.drop_last() =~= seq![m] + ms0);
        assert(l.last() == ms.last());
        match (spec_modifier(m), spec_modifier_flags(ms0), spec_modifier(ms.last())) {
            (Some(x), Some(f), Some(y)) => {
                assert(spec_modifier_flags(ms) == Some(with_modifier(f, y)));
                assert(with_modifier(with_modifier(f, x), y) == with_modifier(with_modifier(f, y), x));
            },
            (Some(x), Some(f), None) => {
                assert(spec_modifier_flags(ms) is None);
            },
            (Some(x), None, _) => {
                assert(spec_modifier_flags(ms) is None);
            },
            (None, _, _) => {},
        }
    }
}

proof fn lemma_keep_one(w: Seq<char>)
    requires
        w.len() > 0,
    ensures
        keep_nonempty(seq![w]) == seq![w],
{
    let one = seq![w];
    assert(one.drop_last() =~= Seq::<Seq<char>>::empty());
    assert(keep_nonempty(one.drop_last()) == Seq::<Seq<char>>::empty());
    assert(one.last() == w);
    assert(Seq::<Seq<char>>::empty().push(w) =~= one);
}

/// A key with no `+` and no space, held alone, is a chord of just that key.
pub proof fn lemma_chord_key(key: Seq<char>)
    requires
        key.len() > 0,
        forall|i: int| 0 <= i < key.len() ==> key[i] != '+',
    ensures
        spec_parse_chord(key) == Some((false, false, false, false, key)),
{
    lemma_split_no_sep(key, '+');
    assert(seq![key].drop_last() =~= Seq::<Seq<char>>::empty());
}

/// A modifier name and `+` before the rest of a chord add the modifier to it.
pub proof fn lemma_chord_mod(m: Seq<char>, rest: Seq<char>)
    requires
        forall|i: int| 0 <= i < m.len() ==> m[i] != '+',
    ensures
        spec_parse_chord(m + seq!['+'] + rest) == match (spec_modifier(m), spec_parse_chord(rest)) {
            (Some(x), Some(c)) => {
                let f = with_modifier((c.0, c.1, c.2, c.3), x);
                Some((f.0, f.1, f.2, f.3, c.4))
            },
            _ => None,
        },
{
    lemma_split_join(m, rest, '+');
    lemma_split_no_sep(m, '+');
    lemma_split_seq_nonempty(rest, '+');
    let pr = split_seq(rest, '+');
    let parts = seq![m] + pr;
    assert(split_seq(m + seq!['+'] + rest, '+') == parts);
    assert(parts.last() == pr.last());
    assert(parts.drop_last() =~= seq![m] + pr.drop_last());
    lemma_flags_prepend(m, pr.drop_last());
}

/// A single word with no space is read as that one word.
pub proof fn lemma_shortcut_single(w: Seq<char>)
    requires
        w.len() > 0,
        forall|i: int| 0 <= i < w.len() ==> w[i] != ' ',
    ensures
        spec_words(w) == seq![w],
        spec_parse_shortcut(w) == match spec_parse_chord(w) {
            Some(c) => Some(seq![c]),
            None => None,
        },
{
    lemma_split_no_sep(w, ' ');
    lemma_keep_one(w);
    lemma_parse_chords_prepend(w, Seq::<Seq<char>>::empty());
    assert(seq![w] + Seq::<Seq<char>>::empty() =~= seq![w]);
    assert(spec_parse_chords(Seq::<Seq<char>>::empty()) == Some(Seq::<ChordView>::empty()));
    match spec_parse_chord(w) {
        Some(c) => {
            assert(seq![c] + Seq::<ChordView>::empty() =~= seq![c]);
        },
        None => {},
    }
}

/// A first word, a space and the rest: the first chord before the rest's chords.
pub proof fn lemma_shortcut_cons(w: Seq<char>, rest: Seq<char>)
    requires
        w.len() > 0,
        forall|i: int| 0 <= i < w.len() ==> w[i] != ' ',
        spec_words(rest).len() > 0,
    ensures
        spec_words(w + seq![' '] + rest) == seq![w] + spec_words(rest),
        spec_parse_shortcut(w + seq![' '] + rest) == match (spec_parse_chord(w), spec_parse_shortcut(rest)) {
            (Some(c), Some(cs)) => Some(seq![c] + cs),
            _ => None,
        },
{
    lemma_split_join(w, rest, ' ');
    lemma_split_no_sep(w, ' ');
    lemma_keep_nonempty_concat(seq![w], split_seq(rest, ' '));
    lemma_keep_one(w);
    assert(spec_words(w + seq![' '] + rest) == seq![w] + spec_words(rest));
    lemma_parse_chords_prepend(w, spec_words(rest));
}

/// The modifier names and the modifiers they stand for.
pub proof fn lemma_modifier_names()
    ensures
        spec_modifier("Cmd"@) == Some(Modifier::Meta),
        spec_modifier("Meta"@) == Some(Modifier::Meta),
        spec_modifier("Super"@) == Some(Modifier::Meta),
        spec_modifier("Ctrl"@) == Some(Modifier::Ctrl),
        spec_modifier("Control"@) == Some(Modifier::Ctrl),
        spec_modifier("Alt"@) == Some(Modifier::Alt),
        spec_modifier("Option"@) == Some(Modifier::Alt),
        spec_modifier("Shift"@) == Some(Modifier::Shift),
{
    reveal_strlit("Cmd");
    reveal_strlit("Meta");
    reveal_strlit("Super");
    reveal_strlit("Ctrl");
    reveal_strlit("Control");
    reveal_strlit("Alt");
    reveal_strlit("Option");
    reveal_strlit("Shift");
    assert("Meta"@.len() != "Cmd"@.len());
    assert("Super"@.len() != "Cmd"@.len());
    assert("Super"@.len() != "Meta"@.len());
    assert("Ctrl"@.len() != "Cmd"@.len());
    assert("Ctrl"@[0] != "Meta"@[0]);
    assert("Ctrl"@.len() != "Super"@.len());
    assert("Control"@.len() != "Cmd"@.len());
    assert("Control"@.len() != "Meta"@.len());
    assert("Control"@.len() != "Super"@.len());
    assert("Control"@.len() != "Ctrl"@.len());
    assert("Alt"@[0] != "Cmd"@[0]);
    assert("Alt"@.len() != "Meta"@.len());
    assert("Alt"@.len() != "Super"@.len());
    assert("Alt"@.len() != "Ctrl"@.len());
    assert("Alt"@.len() != "Control"@.len());
    assert("Option"@.len() != "Cmd"@.len());
    assert("Option"@.len() != "Meta"@.len());
    assert("Option"@.len() != "Super"@.len());
    assert("Option"@.len() != "Ctrl"@.len());
    assert("Option"@.len() != "Control"@.len());
    assert("Option"@.len() != "Alt"@.len());
    assert("Shift"@.len() != "Cmd"@.len());
    assert("Shift"@.len() != "Meta"@.len());
    assert("Shift"@[1] != "Super"@[1]);
    assert("Shift"@.len() != "Ctrl"@.len());
    assert("Shift"@.len() != "Control"@.len());
    assert("Shift"@.len() != "Alt"@.len());
    assert("Shift"@.len() != "Option"@.len());
}

} // verus!
