//! Lexicographic order on code sequences and a stable sort by such keys.
use vstd::prelude::*;

verus! {

/// Whether `a` comes strictly before `b` in lexicographic order: at the first
/// position where they differ the code of `a` is smaller, or `a` is a proper prefix of `b`.
pub open spec fn lex_lt(a: Seq<u32>, b: Seq<u32>) -> bool
    decreases a.len(),
{
    if a.len() == 0 {
        b.len() > 0
    } else if b.len() == 0 {
        false
    } else if a[0] != b[0] {
        a[0] < b[0]
    } else {
        lex_lt(a.drop_first(), b.drop_first())
    }
}

/// No sequence comes before itself.
pub proof fn lemma_lex_lt_irreflexive(a: Seq<u32>)
    ensures
        !lex_lt(a, a),
    decreases a.len(),
{
    if a.len() > 0 {
        lemma_lex_lt_irreflexive(a.drop_first());
    }
}

/// Lexicographic order is transitive.
pub proof fn lemma_lex_lt_transitive(a: Seq<u32>, b: Seq<u32>, c: Seq<u32>)
    requires
        lex_lt(a, b),
        lex_lt(b, c),
    ensures
        lex_lt(a, c),
    decreases a.len(),
{
    if a.len() > 0 && b.len() > 0 && c.len() > 0 && a[0] == b[0] && b[0] == c[0] {
        lemma_lex_lt_transitive(a.drop_first(), b.drop_first(), c.drop_first());
    }
}

/// Whether key `a` goes strictly before key `b`: ascending order, or its reverse.
pub open spec fn key_before(a: Seq<u32>, b: Seq<u32>, descending: bool) -> bool {
    if descending {
        lex_lt(b, a)
    } else {
        lex_lt(a, b)
    }
}

/// The view of a list of keys.
pub open spec fn key_views(keys: Seq<Vec<u32>>) -> Seq<Seq<u32>> {
    keys.map_values(|k: Vec<u32>| k@)
}

/// `order` lists each position of `0..n` once.
pub open spec fn is_permutation_of_range(order: Seq<usize>, n: nat) -> bool {
    &&& order.len() == n
    &&& forall|i: int| 0 <= i < order.len() ==> order[i] < n
    &&& forall|i: int, j: int| 0 <= i < j < order.len() ==> order[i] != order[j]
}

/// `order` arranges the positions of `keys` by key, and keeps positions with equal keys
/// in their original order.
pub open spec fn is_stably_sorted(order: Seq<usize>, keys: Seq<Seq<u32>>, descending: bool) -> bool {
    &&& forall|i: int, j: int|
        #![trigger order[i], order[j]]
        0 <= i < j < order.len() ==> !key_before(keys[order[j] as int], keys[order[i] as int], descending)
    &&& forall|i: int, j: int|
        #![trigger order[i], order[j]]
        0 <= i < j < order.len() && keys[order[i] as int] == keys[order[j] as int] ==> order[i] < order[j]
}

/// Whether `a` comes strictly before `b` in lexicographic order.
pub fn lex_less(a: &[u32], b: &[u32]) -> (r: bool)
    ensures
        r == lex_lt(a@, b@),
{
    let mut i: usize = 0;
    assert(a@.skip(0) =~= a@);
    assert(b@.skip(0) =~= b@);
    while i < a.len() && i < b.len()
        invariant
            i <= a.len(),
            i <= b.len(),
            lex_lt(a@, b@) == lex_lt(a@.skip(i as int), b@.skip(i as int)),
        decreases a.len() - i,
    {
        if a[i] != b[i] {
            return a[i] < b[i];
        }
        assert(a@.skip(i as int).drop_first() =~= a@.skip(i + 1));
        assert(b@.skip(i as int).drop_first() =~= b@.skip(i + 1));
        i += 1;
    }
    i == a.len() && i < b.len()
}

fn key_goes_before(a: &[u32], b: &[u32], descending: bool) -> (r: bool)
    ensures
        r == key_before(a@, b@, descending),
{
    if descending {
        lex_less(b, a)
    } else {
        lex_less(a, b)
    }
}

proof fn lemma_key_before_transitive(a: Seq<u32>, b: Seq<u32>, c: Seq<u32>, descending: bool)
    requires
        key_before(a, b, descending),
        key_before(b, c, descending),
    ensures
        key_before(a, c, descending),
{
    if descending {
        lemma_lex_lt_transitive(c, b, a);
    } else {
        lemma_lex_lt_transitive(a, b, c);
    }
}

proof fn lemma_key_before_irreflexive(a: Seq<u32>, descending: bool)
    ensures
        !key_before(a, a, descending),
{
    lemma_lex_lt_irreflexive(a);
}

/// The positions of `keys`, arranged by key (ascending, or descending when asked) with
/// equal keys kept in their original order; the order of a stable sort.
pub fn stable_order(keys: &Vec<Vec<u32>>, descending: bool) -> (order: Vec<usize>)
    ensures
        is_permutation_of_range(order@, keys@.len()),
        is_stably_sorted(order@, key_views(keys@), descending),
{
    let ghost ks = key_views(keys@);
    let mut order: Vec<usize> = Vec::new();
    let mut k: usize = 0;
    while k < keys.len()
        invariant
            k <= keys.len(),
            ks == key_views(keys@),
            ks.len() == keys@.len(),
            order@.len() == k,
            forall|i: int| 0 <= i < order@.len() ==> order@[i] < k,
            forall|i: int, j: int| 0 <= i < j < order@.len() ==> order@[i] != order@[j],
            is_stably_sorted(order@, ks, descending),
        decreases keys.len() - k,
    {
        let x = keys[k].as_slice();
        let mut p: usize = 0;
        while p < order.len() && !key_goes_before(x, keys[order[p]].as_slice(), descending)
            invariant
                k < keys.len(),
                ks == key_views(keys@),
                ks.len() == keys@.len(),
                x@ == ks[k as int],
                p <= order@.len(),
                forall|i: int| 0 <= i < order@.len() ==> order@[i] < k,
                forall|i: int| 0 <= i < p ==> !key_before(ks[k as int], #[trigger] ks[order@[i] as int], descending),
            decreases order@.len() - p,
        {
            p += 1;
        }
        let ghost old_order = order@;
        proof {
            if p < old_order.len() {
                assert(key_before(ks[k as int], ks[old_order[p as int] as int], descending));
            }
        }
        order.insert(p, k);
        proof {
            let o = order@;
            assert(o =~= old_order.insert(p as int, k));
            assert forall|i: int| 0 <= i < o.len() implies o[i] < k + 1 by {
                if i < p {
                    assert(o[i] == old_order[i]);
                } else if i > p {
                    assert(o[i] == old_order[i - 1]);
                }
            }
            assert forall|i: int, j: int| 0 <= i < j < o.len() implies o[i] != o[j] by {
                if i < p && j < p {
                    assert(o[i] == old_order[i] && o[j] == old_order[j]);
                } else if i < p && j == p {
                    assert(o[i] == old_order[i]);
                } else if i < p {
                    assert(o[i] == old_order[i] && o[j] == old_order[j - 1]);
                } else if i == p {
                    assert(o[j] == old_order[j - 1]);
                } else {
                    assert(o[i] == old_order[i - 1] && o[j] == old_order[j - 1]);
                }
            }
            assert forall|i: int, j: int|
                #![trigger o[i], o[j]]
                0 <= i < j < o.len() implies !key_before(ks[o[j] as int], ks[o[i] as int], descending)
                && (ks[o[i] as int] == ks[o[j] as int] ==> o[i] < o[j]) by {
                if i < p && j < p {
                    assert(o[i] == old_order[i] && o[j] == old_order[j]);
                    assert(old_order[i] == old_order[i] && old_order[j] == old_order[j]);
                } else if i < p && j == p {
                    assert(o[i] == old_order[i]);
                    assert(!key_before(ks[k as int], ks[old_order[i] as int], descending));
                } else if i < p {
                    assert(o[i] == old_order[i] && o[j] == old_order[j - 1]);
                    assert(old_order[i] == old_order[i] && old_order[j - 1] == old_order[j - 1]);
                } else if i == p {
                    let q = old_order[j - 1];
                    assert(o[j] == q);
                    assert(key_before(ks[k as int], ks[old_order[p as int] as int], descending));
                    if j - 1 > p {
                        assert(old_order[p as int] == old_order[p as int] && old_order[j - 1] == old_order[j - 1]);
                        assert(!key_before(ks[q as int], ks[old_order[p as int] as int], descending));
                    }
                    if key_before(ks[q as int], ks[k as int], descending) {
                        lemma_key_before_transitive(ks[q as int], ks[k as int], ks[old_order[p as int] as int], descending);
                        if j - 1 == p {
                            lemma_key_before_irreflexive(ks[q as int], descending);
                        }
                    }
                    if ks[k as int] == ks[q as int] {
                        if j - 1 == p {
                            lemma_key_before_irreflexive(ks[q as int], descending);
                        } else {
                            assert(!key_before(ks[q as int], ks[old_order[p as int] as int], descending));
                        }
                    }
                } else {
                    assert(o[i] == old_order[i - 1] && o[j] == old_order[j - 1]);
                    assert(old_order[i - 1] == old_order[i - 1] && old_order[j - 1] == old_order[j - 1]);
                }
            }
        }
        k += 1;
    }
    order
}

} // verus!
