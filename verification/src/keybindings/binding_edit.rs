//! Editing the configured bindings from the preferences form: when the form may be
//! submitted, and what saving or deleting does to the binding lists.
use crate::config::{key_action_views, BindingSet, KeyAction, KeyActionView};
use crate::keybindings::context::KeyContext;
use crate::keybindings::shortcut::{spec_parse_shortcut, ShortcutSequence};
use crate::text::{chars_of, str_eq};
use vstd::prelude::*;

verus! {

/// Whether the form may be submitted: the key is a shortcut and an action is chosen;
/// when editing the binding `original` (key and action), one of the two must also differ.
pub open spec fn spec_can_submit(key: Seq<char>, action: Seq<char>, original: Option<(Seq<char>, Seq<char>)>) -> bool {
    let valid = key.len() > 0 && spec_parse_shortcut(key) is Some && action.len() > 0;
    match original {
        Some((k, a)) => valid && (key != k || action != a),
        None => valid,
    }
}

/// Whether the binding form may be submitted with this key and action; `original` is the
/// binding being edited, if any.
pub fn can_submit(key: &str, action: &str, original: Option<(&str, &str)>) -> (r: bool)
    ensures
        r == spec_can_submit(key@, action@, match original {
            Some((k, a)) => Some((k@, a@)),
            None => None,
        }),
{
    let key_valid = has_text(key) && ShortcutSequence::parse(key).is_ok();
    let action_valid = has_text(action);
    match original {
        Some((k, a)) => key_valid && action_valid && (!str_eq(key, k) || !str_eq(action, a)),
        None => key_valid && action_valid,
    }
}

fn has_text(s: &str) -> (r: bool)
    ensures
        r == (s@.len() > 0),
{
    chars_of(s).len() > 0
}

/// The list of bindings of a context; no context means the global list.
pub open spec fn spec_context_list(set: BindingSet, context: Option<KeyContext>) -> Seq<KeyActionView> {
    match context {
        None => key_action_views(set.global@),
        Some(KeyContext::Content) => key_action_views(set.content@),
        Some(KeyContext::Sidebar) => key_action_views(set.sidebar@),
        Some(KeyContext::QuickAccess) => key_action_views(set.quick_access@),
        Some(KeyContext::RightSidebar) => key_action_views(set.right_sidebar@),
        Some(KeyContext::Search) => key_action_views(set.search@),
    }
}

/// The binding set `after` differs from `before` at most in the list of `context`.
pub open spec fn others_unchanged(before: BindingSet, after: BindingSet, context: Option<KeyContext>) -> bool {
    forall|c: Option<KeyContext>| c != context ==> #[trigger] spec_context_list(after, c) == spec_context_list(before, c)
}

/// The list after saving the form: with both key and action given, the edited entry
/// takes them (when its index is in the list), or a new entry is appended; otherwise the
/// list stays as it was.
pub open spec fn spec_saved_list(
    list: Seq<KeyActionView>,
    edit_index: Option<usize>,
    key: Seq<char>,
    action: Seq<char>,
) -> Seq<KeyActionView> {
    if key.len() == 0 || action.len() == 0 {
        list
    } else {
        match edit_index {
            Some(i) => if i < list.len() {
                list.update(i as int, (key, action))
            } else {
                list
            },
            None => list.push((key, action)),
        }
    }
}

/// The list without the entries bound to `key`, in order.
pub open spec fn spec_without_key(list: Seq<KeyActionView>, key: Seq<char>) -> Seq<KeyActionView>
    decreases list.len(),
{
    if list.len() == 0 {
        Seq::empty()
    } else {
        let rest = spec_without_key(list.drop_last(), key);
        if list.last().0 == key {
            rest
        } else {
            rest.push(list.last())
        }
    }
}

fn save_in_list(list: &mut Vec<KeyAction>, edit_index: Option<usize>, key: &str, action: &str)
    ensures
        key_action_views(final(list)@) == spec_saved_list(key_action_views(old(list)@), edit_index, key@, action@),
{
    let ghost before = key_action_views(list@);
    if !has_text(key) || !has_text(action) {
        return;
    }
    match edit_index {
        Some(i) => {
            if i < list.len() {
                list.set(i, KeyAction::new(key, action));
                assert(key_action_views(list@) =~= before.update(i as int, (key@, action@)));
            }
        },
        None => {
            list.push(KeyAction::new(key, action));
            assert(key_action_views(list@) =~= before.push((key@, action@)));
        },
    }
}

fn remove_key_in_list(list: &mut Vec<KeyAction>, key: &str)
    ensures
        key_action_views(final(list)@) == spec_without_key(key_action_views(old(list)@), key@),
{
    let ghost before = key_action_views(list@);
    let mut kept: Vec<KeyAction> = Vec::new();
    let mut i: usize = 0;
    while i < list.len()
        invariant
            before == key_action_views(list@),
            i <= list@.len(),
            key_action_views(kept@) == spec_without_key(before.take(i as int), key@),
        decreases list@.len() - i,
    {
        assert(before.take(i + 1).drop_last() =~= before.take(i as int));
        assert(before[i as int] == list@[i as int]@);
        let ghost kept_before = key_action_views(kept@);
        if !str_eq(list[i].key.as_str(), key) {
            kept.push(KeyAction::new(list[i].key.as_str(), list[i].action.as_str()));
            assert(key_action_views(kept@) =~= kept_before.push(before[i as int]));
        }
        i += 1;
    }
    assert(before.take(before.len() as int) =~= before);
    *list = kept;
}

/// Save the binding form into the list of `context`: with both key and action given,
/// the entry at `edit_index` takes them (nothing happens when the index is past the
/// list), or, when adding, a new entry is appended. The other lists stay as they were.
pub fn save_binding(set: &mut BindingSet, context: Option<KeyContext>, edit_index: Option<usize>, key: &str, action: &str)
    ensures
        spec_context_list(*final(set), context) == spec_saved_list(spec_context_list(*old(set), context), edit_index, key@, action@),
        others_unchanged(*old(set), *final(set), context),
{
    match context {
        None => save_in_list(&mut set.global, edit_index, key, action),
        Some(KeyContext::Content) => save_in_list(&mut set.content, edit_index, key, action),
        Some(KeyContext::Sidebar) => save_in_list(&mut set.sidebar, edit_index, key, action),
        Some(KeyContext::QuickAccess) => save_in_list(&mut set.quick_access, edit_index, key, action),
        Some(KeyContext::RightSidebar) => save_in_list(&mut set.right_sidebar, edit_index, key, action),
        Some(KeyContext::Search) => save_in_list(&mut set.search, edit_index, key, action),
    }
}

/// Delete from the list of `context` every entry bound to `key`; the other lists stay as
/// they were.
pub fn delete_binding(set: &mut BindingSet, context: Option<KeyContext>, key: &str)
    ensures
        spec_context_list(*final(set), context) == spec_without_key(spec_context_list(*old(set), context), key@),
        others_unchanged(*old(set), *final(set), context),
{
    match context {
        None => remove_key_in_list(&mut set.global, key),
        Some(KeyContext::Content) => remove_key_in_list(&mut set.content, key),
        Some(KeyContext::Sidebar) => remove_key_in_list(&mut set.sidebar, key),
        Some(KeyContext::QuickAccess) => remove_key_in_list(&mut set.quick_access, key),
        Some(KeyContext::RightSidebar) => remove_key_in_list(&mut set.right_sidebar, key),
        Some(KeyContext::Search) => remove_key_in_list(&mut set.search, key),
    }
}

/// After a delete, no entry of the context is bound to the deleted key, and every other
/// entry is still there.
pub proof fn lemma_delete_removes_only_key(list: Seq<KeyActionView>, key: Seq<char>)
    ensures
        forall|i: int| 0 <= i < spec_without_key(list, key).len() ==> (#[trigger] spec_without_key(list, key)[i]).0 != key,
        forall|i: int| 0 <= i < list.len() && (#[trigger] list[i]).0 != key ==> spec_without_key(list, key).contains(list[i]),
    decreases list.len(),
{
    if list.len() > 0 {
        let p = list.drop_last();
        lemma_delete_removes_only_key(p, key);
        let r = spec_without_key(list, key);
        let rp = spec_without_key(p, key);
        assert forall|i: int| 0 <= i < r.len() implies (#[trigger] r[i]).0 != key by {
            if i < rp.len() {
                assert(r[i] == rp[i]);
            }
        }
        assert forall|i: int| 0 <= i < list.len() && (#[trigger] list[i]).0 != key implies r.contains(list[i]) by {
            if i < p.len() {
                assert(list[i] == p[i]);
                let j = choose|j: int| 0 <= j < rp.len() && rp[j] == p[i];
                assert(r[j] == rp[j]);
            } else {
                assert(r[r.len() - 1] == list[i]);
            }
        }
    }
}

} // verus!
