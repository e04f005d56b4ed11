//! The order in which the file explorer lists the entries of a directory.
use crate::sorting::{is_permutation_of_range, key_before, key_views, lex_lt, stable_order};
use vstd::prelude::*;

verus! {

/// A directory entry as the explorer orders it: whether it is a directory, and the bytes of
/// its file name.
#[derive(Debug, Clone)]
pub struct EntryKey {
    pub is_dir: bool,
    pub name: Vec<u8>,
}

/// The bytes of a name as codes.
pub open spec fn byte_codes(name: Seq<u8>) -> Seq<u32> {
    name.map_values(|b: u8| b as u32)
}

/// Whether entry `a` is listed before entry `b`: directories before files, and within each
/// group by file name, byte by byte.
pub open spec fn entry_before(a_is_dir: bool, a_name: Seq<u8>, b_is_dir: bool, b_name: Seq<u8>) -> bool {
    (a_is_dir && !b_is_dir) || (a_is_dir == b_is_dir && lex_lt(byte_codes(a_name), byte_codes(b_name)))
}

spec fn entry_code(is_dir: bool, name: Seq<u8>) -> Seq<u32> {
    seq![if is_dir { 0u32 } else { 1u32 }] + byte_codes(name)
}

proof fn lemma_entry_code(a_is_dir: bool, a_name: Seq<u8>, b_is_dir: bool, b_name: Seq<u8>)
    ensures
        key_before(entry_code(a_is_dir, a_name), entry_code(b_is_dir, b_name), false)
            == entry_before(a_is_dir, a_name, b_is_dir, b_name),
        (entry_code(a_is_dir, a_name) == entry_code(b_is_dir, b_name))
            == (a_is_dir == b_is_dir && a_name == b_name),
{
    let ca = entry_code(a_is_dir, a_name);
    let cb = entry_code(b_is_dir, b_name);
    assert(ca.drop_first() =~= byte_codes(a_name));
    assert(cb.drop_first() =~= byte_codes(b_name));
    if ca == cb {
        assert(ca[0] == cb[0]);
        assert(byte_codes(a_name) == byte_codes(b_name));
        assert(a_name.len() == b_name.len());
        assert forall|i: int| 0 <= i < a_name.len() implies a_name[i] == b_name[i] by {
            assert(byte_codes(a_name)[i] == byte_codes(b_name)[i]);
        }
        assert(a_name =~= b_name);
    }
}

fn entry_code_of(entry: &EntryKey) -> (r: Vec<u32>)
    ensures
        r@ == entry_code(entry.is_dir, entry.name@),
{
    let mut r: Vec<u32> = Vec::new();
    r.push(if entry.is_dir { 0u32 } else { 1u32 });
    let mut i: usize = 0;
    while i < entry.name.len()
        invariant
            i <= entry.name@.len(),
            r@ == entry_code(entry.is_dir, entry.name@.take(i as int)),
        decreases entry.name@.len() - i,
    {
        r.push(entry.name[i] as u32);
        assert(entry_code(entry.is_dir, entry.name@.take(i + 1)) =~= entry_code(
            entry.is_dir,
            entry.name@.take(i as int),
        ).push(entry.name@[i as int] as u32));
        i += 1;
    }
    assert(entry.name@.take(entry.name@.len() as int) =~= entry.name@);
    r
}

/// The order in which to list `entries`: directories first, then files, each group by name;
/// entries that compare equal keep their order. `order[i]` is the position in `entries` of
/// the `i`-th entry listed.
pub fn sort_entries(entries: &[EntryKey]) -> (order: Vec<usize>)
    ensures
        is_permutation_of_range(order@, entries@.len()),
        forall|i: int, j: int|
            #![trigger order@[i], order@[j]]
            0 <= i < j < order@.len() ==> !entry_before(
                entries@[order@[j] as int].is_dir,
                entries@[order@[j] as int].name@,
                entries@[order@[i] as int].is_dir,
                entries@[order@[i] as int].name@,
            ),
        forall|i: int, j: int|
            #![trigger order@[i], order@[j]]
            0 <= i < j < order@.len()
                && entries@[order@[i] as int].is_dir == entries@[order@[j] as int].is_dir
                && entries@[order@[i] as int].name@ == entries@[order@[j] as int].name@
                ==> order@[i] < order@[j],
{
    let mut keys: Vec<Vec<u32>> = Vec::new();
    let mut i: usize = 0;
    while i < entries.len()
        invariant
            i <= entries@.len(),
            keys@.len() == i,
            forall|m: int| 0 <= m < i ==> #[trigger] keys@[m]@ == entry_code(entries@[m].is_dir, entries@[m].name@),
        decreases entries@.len() - i,
    {
        let code = entry_code_of(&entries[i]);
        keys.push(code);
        i += 1;
    }
    let order = stable_order(&keys, false);
    proof {
        let ks = key_views(keys@);
        assert forall|i: int, j: int|
            #![trigger order@[i], order@[j]]
            0 <= i < j < order@.len() implies !entry_before(
                entries@[order@[j] as int].is_dir,
                entries@[order@[j] as int].name@,
                entries@[order@[i] as int].is_dir,
                entries@[order@[i] as int].name@,
            ) && (entries@[order@[i] as int].is_dir == entries@[order@[j] as int].is_dir
                && entries@[order@[i] as int].name@ == entries@[order@[j] as int].name@
                ==> order@[i] < order@[j]) by {
            let a = order@[i] as int;
            let b = order@[j] as int;
            assert(ks[a] == keys@[a]@ && ks[b] == keys@[b]@);
            lemma_entry_code(entries@[b].is_dir, entries@[b].name@, entries@[a].is_dir, entries@[a].name@);
            lemma_entry_code(entries@[a].is_dir, entries@[a].name@, entries@[b].is_dir, entries@[b].name@);
        }
    }
    order
}

/// Whether the explorer lists an entry: directories always, Markdown files always, other
/// files only when all files are shown.
pub fn entry_is_listed(is_dir: bool, is_markdown: bool, show_all_files: bool) -> (r: bool)
    ensures
        r == (show_all_files || is_dir || is_markdown),
{
    show_all_files || is_dir || is_markdown
}

} // verus!
