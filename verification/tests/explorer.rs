use arto::explorer::{sort_entries, EntryKey};

fn entry(is_dir: bool, name: &str) -> EntryKey {
    EntryKey { is_dir, name: name.as_bytes().to_vec() }
}

#[test]
fn sort_entries_lists_directories_first_then_by_name() {
    let entries = vec![
        entry(false, "b.md"),
        entry(true, "zeta"),
        entry(false, "a.md"),
        entry(true, "alpha"),
        entry(false, "B.md"),
    ];
    let order = sort_entries(&entries);
    assert_eq!(order, vec![3, 1, 4, 2, 0]);
}

#[test]
fn sort_entries_of_nothing_is_empty() {
    assert!(sort_entries(&[]).is_empty());
}

#[test]
fn sort_entries_orders_prefix_before_longer_name() {
    let entries = vec![entry(false, "notes.md"), entry(false, "notes")];
    assert_eq!(sort_entries(&entries), vec![1, 0]);
}
