//! Headings for the table of contents: their anchor slugs and unique ids.
use vstd::prelude::*;

use crate::keybindings::shortcut::keep_nonempty;
use crate::markdown::autolinks::{is_unicode_whitespace, is_whitespace};
use crate::text::{
    append_chars, chars_of, deep_chars, join_seqs, lemma_join_split, lemma_split_seq_nonempty, split_chars, split_seq,
    str_eq, string_from_chars,
};

verus! {

broadcast use vstd::seq::group_seq_axioms;

/// Information about a heading extracted from markdown.
#[derive(Debug, Clone, PartialEq)]
pub struct HeadingInfo {
    /// Heading level (1-6).
    pub level: u8,
    /// Heading text content.
    pub text: String,
    /// Generated anchor id for linking.
    pub id: String,
}

/// The result of `str::to_lowercase` on text with the characters `s` (Unicode case mapping).
pub uninterp spec fn spec_to_lowercase(s: Seq<char>) -> Seq<char>;

/// `str::to_lowercase`: the Unicode lower case of `s`.
#[verifier::external_body]
pub(crate) fn to_lowercase(s: &str) -> (r: String)
    ensures
        r@ == spec_to_lowercase(s@),
{
    s.to_lowercase()
}

/// Whether `c` is an ASCII letter or digit.
pub open spec fn is_ascii_alnum(c: char) -> bool {
    ('0' <= c && c <= '9') || ('a' <= c && c <= 'z') || ('A' <= c && c <= 'Z')
}

/// What a character becomes in a slug: ASCII letters and digits stay, whitespace and
/// `-`, `_`, `.` become `-`, and anything else is dropped (`None`).
pub open spec fn slug_char(c: char) -> Option<char> {
    if is_ascii_alnum(c) {
        Some(c)
    } else if is_unicode_whitespace(c) || c == '-' || c == '_' || c == '.' {
        Some('-')
    } else {
        None
    }
}

/// The characters that `s` keeps in a slug, each as `slug_char` makes it.
pub open spec fn slug_chars(s: Seq<char>) -> Seq<char>
    decreases s.len(),
{
    if s.len() == 0 {
        Seq::empty()
    } else {
        let p = slug_chars(s.drop_last());
        match slug_char(s.last()) {
            Some(c) => p.push(c),
            None => p,
        }
    }
}

/// The slug of already lower-cased text: its slug characters, with every run of `-`
/// made one `-` and none at either end.
pub open spec fn spec_slug(lower: Seq<char>) -> Seq<char> {
    join_seqs(keep_nonempty(split_seq(slug_chars(lower), '-')), seq!['-'])
}

/// The anchor slug of heading text.
pub open spec fn spec_generate_slug(text: Seq<char>) -> Seq<char> {
    spec_slug(spec_to_lowercase(text))
}

/// What `c` becomes in a slug.
fn slug_char_of(c: char) -> (r: Option<char>)
    ensures
        r == slug_char(c),
{
    if ('0' <= c && c <= '9') || ('a' <= c && c <= 'z') || ('A' <= c && c <= 'Z') {
        Some(c)
    } else if is_whitespace(c) || c == '-' || c == '_' || c == '.' {
        Some('-')
    } else {
        None
    }
}

/// The slug of text that is already lower case.
pub fn slug_from_lowercase(lower: &str) -> (r: String)
    ensures
        r@ == spec_slug(lower@),
{
    let cs = chars_of(lower);
    let mut kept: Vec<char> = Vec::new();
    let mut i: usize = 0;
    assert(cs@.take(0) =~= Seq::<char>::empty());
    while i < cs.len()
        invariant
            i <= cs@.len(),
            kept@ == slug_chars(cs@.take(i as int)),
        decreases cs@.len() - i,
    {
        assert(cs@.take(i + 1).drop_last() =~= cs@.take(i as int));
        match slug_char_of(cs[i]) {
            Some(c) => kept.push(c),
            None => {},
        }
        i += 1;
    }
    assert(cs@.take(cs@.len() as int) =~= cs@);
    let pieces = split_chars(kept.as_slice(), '-');
    let ghost ps = deep_chars(pieces@);
    let mut out: Vec<char> = Vec::new();
    let mut k: usize = 0;
    assert(ps.take(0) =~= Seq::<Seq<char>>::empty());
    while k < pieces.len()
        invariant
            ps == deep_chars(pieces@),
            k <= ps.len(),
            out@ == join_seqs(keep_nonempty(ps.take(k as int)), seq!['-']),
            (out@.len() == 0) == (keep_nonempty(ps.take(k as int)).len() == 0),
        decreases ps.len() - k,
    {
        assert(ps.take(k + 1).drop_last() =~= ps.take(k as int));
        let piece = pieces[k].as_slice();
        assert(piece@ == ps[k as int]);
        if piece.len() > 0 {
            let ghost before = keep_nonempty(ps.take(k as int));
            if out.len() > 0 {
                out.push('-');
            }
            append_chars(&mut out, piece);
            assert(keep_nonempty(ps.take(k + 1)) == before.push(piece@));
            assert(before.push(piece@).drop_last() =~= before);
        }
        k += 1;
    }
    assert(ps.take(ps.len() as int) =~= ps);
    string_from_chars(out.as_slice())
}

/// The character of the decimal digit `d` (0 to 9).
pub open spec fn digit_char(d: nat) -> char {
    if d == 0 { '0' } else if d == 1 { '1' } else if d == 2 { '2' } else if d == 3 { '3' }
    else if d == 4 { '4' } else if d == 5 { '5' } else if d == 6 { '6' } else if d == 7 { '7' }
    else if d == 8 { '8' } else { '9' }
}

/// The decimal digits of `n`, most significant first, without leading zeros.
pub open spec fn spec_decimal(n: nat) -> Seq<char>
    decreases n,
{
    if n < 10 {
        seq![digit_char(n)]
    } else {
        spec_decimal(n / 10).push(digit_char(n % 10))
    }
}

/// The decimal digits of `n`.
pub fn decimal_chars(n: usize) -> (r: Vec<char>)
    ensures
        r@ == spec_decimal(n as nat),
    decreases n,
{
    let d = n % 10;
    let c = if d == 0 { '0' } else if d == 1 { '1' } else if d == 2 { '2' } else if d == 3 { '3' }
        else if d == 4 { '4' } else if d == 5 { '5' } else if d == 6 { '6' } else if d == 7 { '7' }
        else if d == 8 { '8' } else { '9' };
    if n < 10 {
        let mut v: Vec<char> = Vec::new();
        v.push(c);
        v
    } else {
        let mut v = decimal_chars(n / 10);
        v.push(c);
        v
    }
}

/// How many entries of `s` equal `x`.
pub open spec fn count_equal(s: Seq<Seq<char>>, x: Seq<char>) -> nat
    decreases s.len(),
{
    if s.len() == 0 {
        0
    } else {
        count_equal(s.drop_last(), x) + if s.last() == x { 1nat } else { 0nat }
    }
}

/// The texts of a list of strings.
pub open spec fn string_views(v: Seq<String>) -> Seq<Seq<char>> {
    v.map_values(|s: String| s@)
}

/// The id of the heading at `i` given the base slugs of all headings: the first heading
/// with a slug keeps it; the `k`-th repeat gets `-k` appended.
pub open spec fn spec_heading_id(bases: Seq<Seq<char>>, i: int) -> Seq<char> {
    let k = count_equal(bases.take(i), bases[i]);
    if k == 0 { bases[i] } else { bases[i] + seq!['-'] + spec_decimal(k) }
}

/// Anchor ids for headings with the given base slugs, in order: a slug seen for the
/// `k`-th time before gets `-k` appended, so repeated headings link apart.
pub fn unique_heading_ids(bases: &[String]) -> (r: Vec<String>)
    ensures
        r@.len() == bases@.len(),
        forall|i: int| 0 <= i < bases@.len() ==> (#[trigger] r@[i])@ == spec_heading_id(string_views(bases@), i),
{
    let ghost bs = string_views(bases@);
    let mut ids: Vec<String> = Vec::new();
    let mut i: usize = 0;
    while i < bases.len()
        invariant
            bs == string_views(bases@),
            i <= bases@.len(),
            ids@.len() == i,
            forall|j: int| 0 <= j < i ==> (#[trigger] ids@[j])@ == spec_heading_id(bs, j),
        decreases bases@.len() - i,
    {
        let base = bases[i].as_str();
        let mut count: usize = 0;
        let mut j: usize = 0;
        assert(bs.take(0) =~= Seq::<Seq<char>>::empty());
        while j < i
            invariant
                bs == string_views(bases@),
                i < bases@.len(),
                j <= i,
                base@ == bs[i as int],
                count == count_equal(bs.take(j as int), bs[i as int]),
                count <= j,
            decreases i - j,
        {
            assert(bs.take(j + 1).drop_last() =~= bs.take(j as int));
            if str_eq(bases[j].as_str(), base) {
                count += 1;
            }
            j += 1;
        }
        if count == 0 {
            ids.push(bases[i].clone());
        } else {
            let mut out = chars_of(base);
            out.push('-');
            let digits = decimal_chars(count);
            append_chars(&mut out, digits.as_slice());
            ids.push(string_from_chars(out.as_slice()));
        }
        i += 1;
    }
    ids
}

/// Generate a URL-safe slug from heading text.
pub fn generate_slug(text: &str) -> (r: String)
    ensures
        r@ == spec_generate_slug(text@),
{
    let lower = to_lowercase(text);
    slug_from_lowercase(lower.as_str())
}

} // verus!

verus! {

/// Whether every character of `s` is an ASCII letter or digit.
pub open spec fn all_alnum(s: Seq<char>) -> bool {
    forall|i: int| 0 <= i < s.len() ==> is_ascii_alnum(#[trigger] s[i])
}

/// Whether `s` is safe in a URL fragment: ASCII letters, digits and single `-`
/// between them, with no `-` at either end.
pub open spec fn is_url_safe_slug(s: Seq<char>) -> bool {
    &&& forall|i: int| 0 <= i < s.len() ==> is_ascii_alnum(#[trigger] s[i]) || s[i] == '-'
    &&& s.len() > 0 ==> is_ascii_alnum(s[0]) && is_ascii_alnum(s.last())
    &&& forall|i: int| 0 <= i < s.len() - 1 ==> !(#[trigger] s[i] == '-' && s[i + 1] == '-')
}

/// Slug characters are letters, digits or `-`.
proof fn lemma_slug_chars_alphabet(s: Seq<char>)
    ensures
        forall|i: int| 0 <= i < slug_chars(s).len() ==> is_ascii_alnum(#[trigger] slug_chars(s)[i]) || slug_chars(s)[i] == '-',
    decreases s.len(),
{
    if s.len() > 0 {
        lemma_slug_chars_alphabet(s.drop_last());
        let prev = slug_chars(s.drop_last());
        let r = slug_chars(s);
        assert forall|i: int| 0 <= i < r.len() implies is_ascii_alnum(#[trigger] r[i]) || r[i] == '-' by {
            if i < prev.len() {
                assert(r[i] == prev[i]);
            }
        }
    }
}

/// Splitting text of letters, digits and `-` at `-` leaves pieces of letters and digits.
proof fn lemma_split_pieces_alnum(t: Seq<char>)
    requires
        forall|i: int| 0 <= i < t.len() ==> is_ascii_alnum(#[trigger] t[i]) || t[i] == '-',
    ensures
        forall|k: int| 0 <= k < split_seq(t, '-').len() ==> all_alnum(#[trigger] split_seq(t, '-')[k]),
    decreases t.len(),
{
    if t.len() > 0 {
        let q = t.drop_last();
        assert forall|i: int| 0 <= i < q.len() implies is_ascii_alnum(#[trigger] q[i]) || q[i] == '-' by {
            assert(q[i] == t[i]);
        }
        lemma_split_pieces_alnum(q);
        crate::text::lemma_split_seq_nonempty(q, '-');
        let prev = split_seq(q, '-');
        let p = split_seq(t, '-');
        assert forall|k: int| 0 <= k < p.len() implies all_alnum(#[trigger] p[k]) by {
            if k < prev.len() - 1 || (k == prev.len() - 1 && t.last() == '-') {
                assert(p[k] == prev[k]);
            } else if k == prev.len() - 1 {
                assert(all_alnum(prev[k]));
                assert(is_ascii_alnum(t[t.len() - 1]));
                assert forall|m: int| 0 <= m < p[k].len() implies is_ascii_alnum(#[trigger] p[k][m]) by {
                    if m < prev[k].len() {
                        assert(p[k][m] == prev[k][m]);
                    }
                }
            }
        }
    }
}

/// The pieces that `keep_nonempty` keeps are non-empty, and keep what all pieces share.
proof fn lemma_keep_nonempty_alnum(ps: Seq<Seq<char>>)
    requires
        forall|k: int| 0 <= k < ps.len() ==> all_alnum(#[trigger] ps[k]),
    ensures
        forall|k: int| 0 <= k < keep_nonempty(ps).len() ==> all_alnum(#[trigger] keep_nonempty(ps)[k]) && keep_nonempty(ps)[k].len() > 0,
    decreases ps.len(),
{
    if ps.len() > 0 {
        let p = ps.drop_last();
        assert forall|k: int| 0 <= k < p.len() implies all_alnum(#[trigger] p[k]) by {
            assert(p[k] == ps[k]);
        }
        lemma_keep_nonempty_alnum(p);
        assert(all_alnum(ps[ps.len() - 1]));
        let prev = keep_nonempty(p);
        let r = keep_nonempty(ps);
        assert forall|k: int| 0 <= k < r.len() implies all_alnum(#[trigger] r[k]) && r[k].len() > 0 by {
            if k < prev.len() {
                assert(r[k] == prev[k]);
            } else {
                assert(r[k] == ps.last());
            }
        }
    }
}

/// Joining non-empty pieces of letters and digits with `-` gives a URL-safe slug.
proof fn lemma_join_url_safe(ps: Seq<Seq<char>>)
    requires
        forall|k: int| 0 <= k < ps.len() ==> all_alnum(#[trigger] ps[k]) && ps[k].len() > 0,
    ensures
        is_url_safe_slug(join_seqs(ps, seq!['-'])),
    decreases ps.len(),
{
    let j = join_seqs(ps, seq!['-']);
    if ps.len() == 1 {
        assert(all_alnum(ps[0]) && ps[0].len() > 0);
        assert(j == ps[0]);
    } else if ps.len() > 1 {
        let p = ps.drop_last();
        assert forall|k: int| 0 <= k < p.len() implies all_alnum(#[trigger] p[k]) && p[k].len() > 0 by {
            assert(p[k] == ps[k]);
        }
        lemma_join_url_safe(p);
        let a = join_seqs(p, seq!['-']);
        let x = ps.last();
        assert(all_alnum(x) && x.len() > 0);
        assert(a.len() > 0) by {
            assert(p[0].len() > 0);
            if p.len() == 1 {
                assert(a == p[0]);
            }
        }
        assert(j == a + seq!['-'] + x);
        assert forall|i: int| 0 <= i < j.len() implies is_ascii_alnum(#[trigger] j[i]) || j[i] == '-' by {
            if i < a.len() {
                assert(j[i] == a[i]);
            } else if i > a.len() {
                assert(j[i] == x[i - a.len() - 1]);
            }
        }
        assert(j[0] == a[0]);
        assert(j.last() == x.last());
        assert(is_ascii_alnum(x[x.len() - 1]));
        assert forall|i: int| 0 <= i < j.len() - 1 implies !(#[trigger] j[i] == '-' && j[i + 1] == '-') by {
            if i < a.len() - 1 {
                assert(j[i] == a[i] && j[i + 1] == a[i + 1]);
            } else if i == a.len() - 1 {
                assert(j[i] == a.last());
            } else if i == a.len() {
                assert(j[i + 1] == x[0]);
            } else {
                assert(j[i] == x[i - a.len() - 1]);
            }
        }
    }
}

/// A slug is URL-safe: only ASCII letters, digits and single `-` between them.
pub proof fn lemma_slug_is_url_safe(lower: Seq<char>)
    ensures
        is_url_safe_slug(spec_slug(lower)),
{
    lemma_slug_chars_alphabet(lower);
    lemma_split_pieces_alnum(slug_chars(lower));
    lemma_keep_nonempty_alnum(split_seq(slug_chars(lower), '-'));
    lemma_join_url_safe(keep_nonempty(split_seq(slug_chars(lower), '-')));
}

proof fn lemma_slug_chars_identity(s: Seq<char>)
    requires
        forall|i: int| 0 <= i < s.len() ==> is_ascii_alnum(#[trigger] s[i]) || s[i] == '-',
    ensures
        slug_chars(s) == s,
    decreases s.len(),
{
    if s.len() > 0 {
        lemma_slug_chars_identity(s.drop_last());
        assert(is_ascii_alnum(s[s.len() - 1]) || s[s.len() - 1] == '-');
        assert(s.drop_last().push(s.last()) =~= s);
    }
}

proof fn lemma_split_last_piece(s: Seq<char>, sep: char)
    ensures
        split_seq(s, sep).len() >= 1,
        (split_seq(s, sep).last().len() > 0) == (s.len() > 0 && s.last() != sep),
    decreases s.len(),
{
    lemma_split_seq_nonempty(s, sep);
    if s.len() > 0 {
        lemma_split_seq_nonempty(s.drop_last(), sep);
    }
}

proof fn lemma_split_inner_pieces(s: Seq<char>)
    requires
        s.len() > 0 ==> s[0] != '-',
        forall|i: int| 0 <= i < s.len() - 1 ==> !(#[trigger] s[i] == '-' && s[i + 1] == '-'),
    ensures
        forall|i: int| 0 <= i < split_seq(s, '-').len() - 1 ==> (#[trigger] split_seq(s, '-')[i]).len() > 0,
    decreases s.len(),
{
    lemma_split_seq_nonempty(s, '-');
    if s.len() > 0 {
        let q = s.drop_last();
        assert forall|i: int| 0 <= i < q.len() - 1 implies !(#[trigger] q[i] == '-' && q[i + 1] == '-') by {
            assert(q[i] == s[i] && q[i + 1] == s[i + 1]);
        }
        lemma_split_inner_pieces(q);
        lemma_split_last_piece(q, '-');
        let p = split_seq(q, '-');
        let sp = split_seq(s, '-');
        if s.last() == '-' {
            assert(q.len() > 0);
            assert(!(s[s.len() - 2] == '-' && s[s.len() - 1] == '-'));
            assert(q.last() == s[s.len() - 2]);
            assert forall|i: int| 0 <= i < sp.len() - 1 implies (#[trigger] sp[i]).len() > 0 by {
                assert(sp[i] == p[i]);
            }
        } else {
            assert forall|i: int| 0 <= i < sp.len() - 1 implies (#[trigger] sp[i]).len() > 0 by {
                assert(sp[i] == p[i]);
            }
        }
    }
}

proof fn lemma_keep_all_nonempty(ps: Seq<Seq<char>>)
    requires
        forall|i: int| 0 <= i < ps.len() ==> (#[trigger] ps[i]).len() > 0,
    ensures
        keep_nonempty(ps) == ps,
    decreases ps.len(),
{
    if ps.len() > 0 {
        let p = ps.drop_last();
        assert forall|i: int| 0 <= i < p.len() implies (#[trigger] p[i]).len() > 0 by {
            assert(p[i] == ps[i]);
        }
        lemma_keep_all_nonempty(p);
        assert(ps.last().len() > 0);
        assert(p.push(ps.last()) =~= ps);
    }
}

/// A slug is its own slug: making a slug of an already made slug changes nothing.
pub proof fn lemma_slug_of_slug(lower: Seq<char>)
    ensures
        spec_slug(spec_slug(lower)) == spec_slug(lower),
{
    let y = spec_slug(lower);
    lemma_slug_is_url_safe(lower);
    lemma_slug_chars_identity(y);
    if y.len() == 0 {
        let sp = split_seq(y, '-');
        assert(sp == seq![Seq::<char>::empty()]);
        assert(sp.drop_last() =~= Seq::<Seq<char>>::empty());
        assert(sp.last().len() == 0);
        assert(keep_nonempty(sp) == keep_nonempty(sp.drop_last()));
        assert(keep_nonempty(sp.drop_last()) == Seq::<Seq<char>>::empty());
    } else {
        assert(y[0] != '-');
        lemma_split_inner_pieces(y);
        lemma_split_last_piece(y, '-');
        let sp = split_seq(y, '-');
        assert forall|i: int| 0 <= i < sp.len() implies (#[trigger] sp[i]).len() > 0 by {
            if i == sp.len() - 1 {
                assert(sp[i] == sp.last());
            }
        }
        lemma_keep_all_nonempty(sp);
        lemma_join_split(y, '-');
    }
}

proof fn lemma_slug_chars_dashes(s: Seq<char>)
    requires
        forall|i: int| 0 <= i < s.len() ==> !is_ascii_alnum(#[trigger] s[i]),
    ensures
        forall|i: int| 0 <= i < slug_chars(s).len() ==> #[trigger] slug_chars(s)[i] == '-',
    decreases s.len(),
{
    if s.len() > 0 {
        lemma_slug_chars_dashes(s.drop_last());
        assert(!is_ascii_alnum(s[s.len() - 1]));
        let p = slug_chars(s.drop_last());
        assert forall|i: int| 0 <= i < slug_chars(s).len() implies #[trigger] slug_chars(s)[i] == '-' by {
            if i < p.len() {
                assert(slug_chars(s)[i] == p[i]);
            }
        }
    }
}

proof fn lemma_split_dashes_empty(s: Seq<char>)
    requires
        forall|i: int| 0 <= i < s.len() ==> #[trigger] s[i] == '-',
    ensures
        forall|i: int| 0 <= i < split_seq(s, '-').len() ==> (#[trigger] split_seq(s, '-')[i]).len() == 0,
    decreases s.len(),
{
    lemma_split_seq_nonempty(s, '-');
    if s.len() > 0 {
        lemma_split_dashes_empty(s.drop_last());
        assert(s[s.len() - 1] == '-');
        let p = split_seq(s.drop_last(), '-');
        assert forall|i: int| 0 <= i < split_seq(s, '-').len() implies (#[trigger] split_seq(s, '-')[i]).len() == 0 by {
            if i < p.len() {
                assert(split_seq(s, '-')[i] == p[i]);
            }
        }
    }
}

proof fn lemma_keep_none(ps: Seq<Seq<char>>)
    requires
        forall|i: int| 0 <= i < ps.len() ==> (#[trigger] ps[i]).len() == 0,
    ensures
        keep_nonempty(ps).len() == 0,
    decreases ps.len(),
{
    if ps.len() > 0 {
        let p = ps.drop_last();
        assert forall|i: int| 0 <= i < p.len() implies (#[trigger] p[i]).len() == 0 by {
            assert(p[i] == ps[i]);
        }
        lemma_keep_none(p);
        assert(ps.last().len() == 0);
    }
}

/// Text without an ASCII letter or digit has the empty slug.
pub proof fn lemma_slug_empty_without_alnum(lower: Seq<char>)
    requires
        forall|i: int| 0 <= i < lower.len() ==> !is_ascii_alnum(#[trigger] lower[i]),
    ensures
        spec_slug(lower).len() == 0,
{
    lemma_slug_chars_dashes(lower);
    lemma_split_dashes_empty(slug_chars(lower));
    lemma_keep_none(split_seq(slug_chars(lower), '-'));
}

} // verus!
