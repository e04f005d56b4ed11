//! What the bindings table of one context shows: the filter by text, the sort by column and
//! the three-state sort toggle of the column headers.
use crate::config::{key_action_views, KeyAction, KeyActionView};
use crate::keybindings::labels::{action_label, spec_name_label};
use crate::markdown::headings::{spec_to_lowercase, to_lowercase};
use crate::sorting::{is_permutation_of_range, key_before, key_views, stable_order};
use crate::text::chars_of;
use vstd::prelude::*;

verus! {

/// The column a bindings table can be sorted by.
#[derive(Debug, Clone, Copy, PartialEq, Eq, Structural)]
pub enum SortColumn {
    Key,
    Action,
}

/// How a bindings table is sorted: by no column, or by one column up or down.
#[derive(Debug, Clone, Copy, PartialEq, Eq, Structural)]
pub struct SortState {
    pub column: Option<SortColumn>,
    pub ascending: bool,
}

/// The arrow shown beside the header of the sorted column.
#[derive(Debug, Clone, Copy, PartialEq, Eq, Structural)]
pub enum SortIndicator {
    Up,
    Down,
}

/// A click on the header of `column`: a new column sorts ascending, a second click on it
/// sorts descending, and a third click turns sorting off.
pub open spec fn spec_toggle_sort(state: SortState, column: SortColumn) -> SortState {
    if state.column == Some(column) {
        if state.ascending {
            SortState { column: Some(column), ascending: false }
        } else {
            SortState { column: None, ascending: true }
        }
    } else {
        SortState { column: Some(column), ascending: true }
    }
}

fn same_column(a: SortColumn, b: SortColumn) -> (r: bool)
    ensures
        r == (a == b),
{
    match (a, b) {
        (SortColumn::Key, SortColumn::Key) => true,
        (SortColumn::Action, SortColumn::Action) => true,
        _ => false,
    }
}

fn is_sorted_by(state: SortState, column: SortColumn) -> (r: bool)
    ensures
        r == (state.column == Some(column)),
{
    match state.column {
        Some(c) => same_column(c, column),
        None => false,
    }
}

impl SortState {
    /// The table as first shown: not sorted.
    pub fn new() -> (s: SortState)
        ensures
            s == (SortState { column: None, ascending: true }),
    {
        SortState { column: None, ascending: true }
    }

    /// The state after a click on the header of `column`.
    pub fn toggle(self, column: SortColumn) -> (r: SortState)
        ensures
            r == spec_toggle_sort(self, column),
    {
        if is_sorted_by(self, column) {
            if self.ascending {
                SortState { column: Some(column), ascending: false }
            } else {
                SortState { column: None, ascending: true }
            }
        } else {
            SortState { column: Some(column), ascending: true }
        }
    }

    /// The arrow beside the header of `column`: up or down where the table is sorted by it.
    pub fn indicator(self, column: SortColumn) -> (r: Option<SortIndicator>)
        ensures
            r == (if self.column == Some(column) {
                Some(if self.ascending { SortIndicator::Up } else { SortIndicator::Down })
            } else {
                None
            }),
    {
        if is_sorted_by(self, column) {
            Some(if self.ascending { SortIndicator::Up } else { SortIndicator::Down })
        } else {
            None
        }
    }
}

/// Three clicks on the same header bring the table back to its unsorted state.
pub proof fn lemma_three_clicks_reset(column: SortColumn)
    ensures
        spec_toggle_sort(
            spec_toggle_sort(spec_toggle_sort(SortState { column: None, ascending: true }, column), column),
            column,
        ) == (SortState { column: None, ascending: true }),
{
}

/// Whether `needle` occurs in `hay` as a run of consecutive characters.
pub open spec fn seq_contains(hay: Seq<char>, needle: Seq<char>) -> bool {
    exists|i: int| 0 <= i && i + needle.len() <= hay.len() && #[trigger] hay.subrange(i, i + needle.len()) == needle
}

fn occurs_at(hay: &[char], needle: &[char], i: usize) -> (r: bool)
    requires
        i + needle@.len() <= hay@.len(),
    ensures
        r == (hay@.subrange(i as int, i + needle@.len()) == needle@),
{
    let mut k: usize = 0;
    while k < needle.len()
        invariant
            i + needle@.len() <= hay.len(),
            hay@.len() == hay.len(),
            k <= needle@.len(),
            forall|m: int| 0 <= m < k ==> hay@[i + m] == needle@[m],
        decreases needle@.len() - k,
    {
        if hay[i + k] != needle[k] {
            assert(hay@.subrange(i as int, i + needle@.len())[k as int] != needle@[k as int]);
            return false;
        }
        k += 1;
    }
    assert(hay@.subrange(i as int, i + needle@.len()) =~= needle@);
    true
}

/// Whether `needle` occurs in `hay` (`str::contains`).
pub fn contains_chars(hay: &[char], needle: &[char]) -> (r: bool)
    ensures
        r == seq_contains(hay@, needle@),
{
    if needle.len() > hay.len() {
        return false;
    }
    let last = hay.len() - needle.len();
    let mut i: usize = 0;
    loop
        invariant
            last + needle@.len() == hay@.len(),
            i <= last,
            forall|j: int| 0 <= j < i ==> #[trigger] hay@.subrange(j, j + needle@.len()) != needle@,
        decreases last - i,
    {
        if occurs_at(hay, needle, i) {
            return true;
        }
        if i == last {
            return false;
        }
        i += 1;
    }
}

/// Whether a binding is shown for the lower-cased filter text `query`: its lower-cased key
/// or the lower-cased label of its action contains the text (an empty text shows all).
pub open spec fn binding_matches(item: KeyActionView, query: Seq<char>) -> bool {
    query.len() == 0 || seq_contains(spec_to_lowercase(item.0), query)
        || seq_contains(spec_to_lowercase(spec_name_label(item.1)), query)
}

/// The positions below `n` of the bindings shown for `query`, in list order.
pub open spec fn filtered_positions(items: Seq<KeyActionView>, query: Seq<char>, n: nat) -> Seq<usize>
    decreases n,
{
    if n == 0 {
        Seq::empty()
    } else {
        let before = filtered_positions(items, query, (n - 1) as nat);
        if binding_matches(items[n - 1], query) {
            before.push((n - 1) as usize)
        } else {
            before
        }
    }
}

/// The code points of a text, in order; strings compare by them (UTF-8 keeps code point order).
pub open spec fn char_codes(s: Seq<char>) -> Seq<u32> {
    s.map_values(|c: char| c as u32)
}

/// What a binding is sorted by in `column`: its lower-cased key, or the lower-cased label of
/// its action.
pub open spec fn sort_key(item: KeyActionView, column: SortColumn) -> Seq<u32> {
    match column {
        SortColumn::Key => char_codes(spec_to_lowercase(item.0)),
        SortColumn::Action => char_codes(spec_to_lowercase(spec_name_label(item.1))),
    }
}

fn codes_of(cs: &[char]) -> (r: Vec<u32>)
    ensures
        r@ == char_codes(cs@),
{
    let mut r: Vec<u32> = Vec::new();
    let mut i: usize = 0;
    while i < cs.len()
        invariant
            i <= cs@.len(),
            r@ == char_codes(cs@.take(i as int)),
        decreases cs@.len() - i,
    {
        r.push(cs[i] as u32);
        assert(char_codes(cs@.take(i + 1)) =~= char_codes(cs@.take(i as int)).push(cs@[i as int] as u32));
        i += 1;
    }
    assert(cs@.take(cs@.len() as int) =~= cs@);
    r
}

proof fn lemma_filtered_shape(items: Seq<KeyActionView>, query: Seq<char>, n: nat)
    requires
        n <= usize::MAX,
    ensures
        forall|i: int| 0 <= i < filtered_positions(items, query, n).len()
            ==> #[trigger] filtered_positions(items, query, n)[i] < n,
        forall|i: int, j: int| 0 <= i < j < filtered_positions(items, query, n).len()
            ==> filtered_positions(items, query, n)[i] < filtered_positions(items, query, n)[j],
    decreases n,
{
    if n > 0 {
        lemma_filtered_shape(items, query, (n - 1) as nat);
        let before = filtered_positions(items, query, (n - 1) as nat);
        if binding_matches(items[n - 1], query) {
            let now = filtered_positions(items, query, n);
            assert(now == before.push((n - 1) as usize));
            assert forall|i: int, j: int| 0 <= i < j < now.len() implies now[i] < now[j] by {
                if j == now.len() - 1 {
                    assert(now[i] == before[i]);
                    assert(before[i] < n - 1);
                } else {
                    assert(now[i] == before[i] && now[j] == before[j]);
                }
            }
        } else {
            assert(filtered_positions(items, query, n) == before);
        }
    }
}

/// The rows of a bindings table: the positions in `bindings` of those shown for
/// `filter_query`, in list order when the table is not sorted, else arranged by the sort
/// key of the sorted column, up or down, with rows of equal keys left in list order.
pub fn display_order(bindings: &[KeyAction], filter_query: &str, sort: SortState) -> (r: Vec<usize>)
    ensures
        ({
            let items = key_action_views(bindings@);
            let shown = filtered_positions(items, spec_to_lowercase(filter_query@), bindings@.len());
            match sort.column {
                None => r@ == shown,
                Some(column) => {
                    &&& r@.len() == shown.len()
                    &&& forall|i: int| 0 <= i < r@.len() ==> shown.contains(#[trigger] r@[i])
                    &&& forall|i: int, j: int| 0 <= i < j < r@.len() ==> r@[i] != r@[j]
                    &&& forall|i: int, j: int|
                        #![trigger r@[i], r@[j]]
                        0 <= i < j < r@.len() ==> !key_before(
                            sort_key(items[r@[j] as int], column),
                            sort_key(items[r@[i] as int], column),
                            !sort.ascending,
                        )
                    &&& forall|i: int, j: int|
                        #![trigger r@[i], r@[j]]
                        0 <= i < j < r@.len() && sort_key(items[r@[i] as int], column) == sort_key(
                            items[r@[j] as int],
                            column,
                        ) ==> r@[i] < r@[j]
                },
            }
        }),
{
    let ghost items = key_action_views(bindings@);
    let lower_query = to_lowercase(filter_query);
    let query = chars_of(lower_query.as_str());
    let ghost q = spec_to_lowercase(filter_query@);
    let column = match sort.column {
        Some(c) => c,
        None => SortColumn::Key,
    };
    let mut shown: Vec<usize> = Vec::new();
    let mut keys: Vec<Vec<u32>> = Vec::new();
    let mut i: usize = 0;
    while i < bindings.len()
        invariant
            i <= bindings@.len(),
            items == key_action_views(bindings@),
            query@ == q,
            shown@ == filtered_positions(items, q, i as nat),
            keys@.len() == shown@.len(),
            forall|m: int| 0 <= m < shown@.len() ==> shown@[m] < i,
            forall|m: int| 0 <= m < keys@.len() ==> #[trigger] keys@[m]@ == sort_key(items[shown@[m] as int], column),
        decreases bindings@.len() - i,
    {
        let ka = &bindings[i];
        let lower_key = to_lowercase(ka.key.as_str());
        let key_chars = chars_of(lower_key.as_str());
        let label = action_label(ka.action.as_str());
        let lower_label = to_lowercase(label.as_str());
        let label_chars = chars_of(lower_label.as_str());
        proof {
            assert(items[i as int] == bindings@[i as int]@);
        }
        if query.len() == 0 || contains_chars(key_chars.as_slice(), query.as_slice())
            || contains_chars(label_chars.as_slice(), query.as_slice()) {
            let k = match column {
                SortColumn::Key => codes_of(key_chars.as_slice()),
                SortColumn::Action => codes_of(label_chars.as_slice()),
            };
            let ghost keys_before = keys@;
            shown.push(i);
            keys.push(k);
            proof {
                assert forall|m: int| 0 <= m < keys@.len() implies #[trigger] keys@[m]@ == sort_key(items[shown@[m] as int], column) by {
                    if m < keys@.len() - 1 {
                        assert(keys@[m] == keys_before[m]);
                    }
                }
            }
        }
        i += 1;
    }
    let ghost f = shown@;
    proof {
        lemma_filtered_shape(items, q, bindings@.len());
    }
    match sort.column {
        None => shown,
        Some(_) => {
            let order = stable_order(&keys, !sort.ascending);
            let ghost ks = key_views(keys@);
            let mut r: Vec<usize> = Vec::new();
            let mut j: usize = 0;
            while j < order.len()
                invariant
                    j <= order@.len(),
                    f == shown@,
                    is_permutation_of_range(order@, keys@.len()),
                    keys@.len() == f.len(),
                    r@.len() == j,
                    forall|m: int| 0 <= m < j ==> #[trigger] r@[m] == f[order@[m] as int],
                decreases order@.len() - j,
            {
                r.push(shown[order[j]]);
                j += 1;
            }
            proof {
                assert(forall|m: int| 0 <= m < keys@.len() ==> #[trigger] ks[m] == keys@[m]@);
                assert forall|a: int, b: int| 0 <= a < b < r@.len() implies r@[a] != r@[b] by {
                    assert(r@[a] == f[order@[a] as int] && r@[b] == f[order@[b] as int]);
                    assert(order@[a] != order@[b]);
                    if order@[a] < order@[b] {
                        assert(f[order@[a] as int] < f[order@[b] as int]);
                    } else {
                        assert(f[order@[b] as int] < f[order@[a] as int]);
                    }
                }
                assert forall|a: int, b: int|
                    #![trigger r@[a], r@[b]]
                    0 <= a < b < r@.len() implies !key_before(
                        sort_key(items[r@[b] as int], column),
                        sort_key(items[r@[a] as int], column),
                        !sort.ascending,
                    ) && (sort_key(items[r@[a] as int], column) == sort_key(items[r@[b] as int], column)
                        ==> r@[a] < r@[b]) by {
                    assert(r@[a] == f[order@[a] as int] && r@[b] == f[order@[b] as int]);
                    assert(order@[a] == order@[a] && order@[b] == order@[b]);
                    assert(keys@[order@[a] as int]@ == sort_key(items[f[order@[a] as int] as int], column));
                    assert(keys@[order@[b] as int]@ == sort_key(items[f[order@[b] as int] as int], column));
                    if sort_key(items[r@[a] as int], column) == sort_key(items[r@[b] as int], column) {
                        assert(order@[a] < order@[b]);
                        assert(f[order@[a] as int] < f[order@[b] as int]);
                    }
                }
                assert forall|a: int| 0 <= a < r@.len() implies f.contains(#[trigger] r@[a]) by {
                    assert(r@[a] == f[order@[a] as int]);
                }
            }
            r
        },
    }
}

} // verus!
