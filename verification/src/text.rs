//! Character-level helpers shared by the parsers and formatters.
use vstd::prelude::*;

verus! {

broadcast use vstd::seq::group_seq_axioms;

/// The characters of `s`, in order.
pub fn chars_of(s: &str) -> (v: Vec<char>)
    ensures
        v@ == s@,
{
    let mut v: Vec<char> = Vec::new();
    for c in it: s.chars()
        invariant
            v@ == it.seq().take(it.index() as int),
            it.seq() == s@,
    {
        v.push(c);
    }
    v
}

/// Whether two character sequences are equal.
pub fn chars_eq(a: &[char], b: &[char]) -> (r: bool)
    ensures
        r == (a@ == b@),
{
    if a.len() != b.len() {
        return false;
    }
    let mut i: usize = 0;
    while i < a.len()
        invariant
            a@.len() == b@.len(),
            i <= a@.len(),
            forall|j: int| 0 <= j < i ==> a@[j] == b@[j],
        decreases a@.len() - i,
    {
        if a[i] != b[i] {
            return false;
        }
        i += 1;
    }
    assert(a@ =~= b@);
    true
}

/// Whether two string slices hold the same characters.
pub fn str_eq(a: &str, b: &str) -> (r: bool)
    ensures
        r == (a@ == b@),
{
    let va = chars_of(a);
    let vb = chars_of(b);
    chars_eq(va.as_slice(), vb.as_slice())
}

/// A `String` holding exactly the characters of `v` (`FromIterator<char>` for `String`).
#[verifier::external_body]
pub fn string_from_chars(v: &[char]) -> (s: String)
    ensures
        s@ == v@,
{
    v.iter().collect()
}

} // verus!

verus! {

/// The pieces of `s` between occurrences of `sep`, as `str::split` yields them:
/// `n` separators give `n + 1` pieces, empty ones included.
pub open spec fn split_seq(s: Seq<char>, sep: char) -> Seq<Seq<char>>
    decreases s.len(),
{
    if s.len() == 0 {
        seq![Seq::<char>::empty()]
    } else {
        let p = split_seq(s.drop_last(), sep);
        if s.last() == sep {
            p.push(Seq::<char>::empty())
        } else {
            p.update(p.len() - 1, p.last().push(s.last()))
        }
    }
}

/// Splitting always yields at least one piece.
pub proof fn lemma_split_seq_nonempty(s: Seq<char>, sep: char)
    ensures
        split_seq(s, sep).len() >= 1,
    decreases s.len(),
{
    if s.len() > 0 {
        lemma_split_seq_nonempty(s.drop_last(), sep);
    }
}

/// The views of a vector of character vectors.
pub open spec fn deep_chars(v: Seq<Vec<char>>) -> Seq<Seq<char>> {
    v.map_values(|x: Vec<char>| x@)
}

/// Split a character slice at every `sep`.
pub fn split_chars(s: &[char], sep: char) -> (r: Vec<Vec<char>>)
    ensures
        deep_chars(r@) == split_seq(s@, sep),
{
    let mut pieces: Vec<Vec<char>> = Vec::new();
    let mut cur: Vec<char> = Vec::new();
    let mut i: usize = 0;
    assert(s@.take(0) =~= Seq::<char>::empty());
    assert(deep_chars(pieces@).push(cur@) =~= seq![Seq::<char>::empty()]);
    while i < s.len()
        invariant
            i <= s@.len(),
            split_seq(s@.take(i as int), sep) == deep_chars(pieces@).push(cur@),
        decreases s@.len() - i,
    {
        let c = s[i];
        let ghost prev = split_seq(s@.take(i as int), sep);
        let ghost old_pieces = pieces@;
        let ghost old_cur = cur@;
        proof {
            assert(s@.take(i + 1).drop_last() =~= s@.take(i as int));
            assert(s@.take(i + 1).last() == c);
        }
        if c == sep {
            pieces.push(cur);
            cur = Vec::new();
            assert(deep_chars(pieces@) =~= deep_chars(old_pieces).push(old_cur));
            assert(deep_chars(pieces@).push(cur@) =~= prev.push(Seq::<char>::empty()));
        } else {
            cur.push(c);
            assert(deep_chars(pieces@).push(cur@) =~= prev.update(prev.len() - 1, prev.last().push(c)));
        }
        i += 1;
    }
    assert(s@.take(s@.len() as int) =~= s@);
    let ghost old_pieces = pieces@;
    let ghost old_cur = cur@;
    pieces.push(cur);
    assert(deep_chars(pieces@) =~= deep_chars(old_pieces).push(old_cur));
    pieces
}

} // verus!

verus! {

/// Append the characters of `s` to `out`.
pub fn append_chars(out: &mut Vec<char>, s: &[char])
    ensures
        final(out)@ == old(out)@ + s@,
{
    let ghost start = out@;
    let mut i: usize = 0;
    while i < s.len()
        invariant
            i <= s@.len(),
            out@ == start + s@.take(i as int),
        decreases s@.len() - i,
    {
        out.push(s[i]);
        assert(s@.take(i + 1) =~= s@.take(i as int).push(s@[i as int]));
        assert(start + s@.take(i + 1) =~= (start + s@.take(i as int)).push(s@[i as int]));
        i += 1;
    }
    assert(s@.take(s@.len() as int) =~= s@);
}

/// Append the characters of `s` to `out`.
pub fn append_str(out: &mut Vec<char>, s: &str)
    ensures
        final(out)@ == old(out)@ + s@,
{
    let v = chars_of(s);
    append_chars(out, v.as_slice());
}

/// The concatenation of the pieces.
pub open spec fn concat_seqs(ps: Seq<Seq<char>>) -> Seq<char>
    decreases ps.len(),
{
    if ps.len() == 0 {
        Seq::empty()
    } else {
        concat_seqs(ps.drop_last()) + ps.last()
    }
}

/// The pieces joined with `sep` between neighbours (like `join`).
pub open spec fn join_seqs(ps: Seq<Seq<char>>, sep: Seq<char>) -> Seq<char>
    decreases ps.len(),
{
    if ps.len() == 0 {
        Seq::empty()
    } else if ps.len() == 1 {
        ps[0]
    } else {
        join_seqs(ps.drop_last(), sep) + sep + ps.last()
    }
}

/// Adding a character to the last piece adds it to the end of the joined text.
pub proof fn lemma_join_update_last(ps: Seq<Seq<char>>, c: char, sep: Seq<char>)
    requires
        ps.len() >= 1,
    ensures
        join_seqs(ps.update(ps.len() - 1, ps.last().push(c)), sep) == join_seqs(ps, sep).push(c),
{
    let u = ps.update(ps.len() - 1, ps.last().push(c));
    if ps.len() >= 2 {
        assert(u.drop_last() =~= ps.drop_last());
        assert(join_seqs(u, sep) =~= join_seqs(ps, sep).push(c));
    }
}

/// Joining the pieces of a split with the separator gives the text back.
pub proof fn lemma_join_split(t: Seq<char>, sep: char)
    ensures
        join_seqs(split_seq(t, sep), seq![sep]) == t,
    decreases t.len(),
{
    lemma_split_seq_nonempty(t, sep);
    if t.len() == 0 {
        assert(join_seqs(split_seq(t, sep), seq![sep]) =~= t);
    } else {
        let q = t.drop_last();
        let p = split_seq(q, sep);
        lemma_join_split(q, sep);
        lemma_split_seq_nonempty(q, sep);
        let s = split_seq(t, sep);
        if t.last() == sep {
            assert(s == p.push(Seq::<char>::empty()));
            assert(s.drop_last() =~= p);
            assert(join_seqs(s, seq![sep]) =~= t);
        } else {
            lemma_join_update_last(p, t.last(), seq![sep]);
            assert(t =~= q.push(t.last()));
        }
    }
}

} // verus!
