//! Checking a new binding against the existing ones: a clash in the same context is
//! a conflict; a binding that shadows or is shadowed across contexts is worth a note.
use vstd::prelude::*;

use crate::keybindings::context::KeyContext;
use crate::keybindings::engine::chords_match;
use crate::keybindings::labels::{context_label, name_label, spec_context_label, spec_name_label};
use crate::keybindings::presets::{resolved_views, ResolvedBinding, ResolvedView};
use crate::keybindings::shortcut::{spec_parse_shortcut, ChordView, ShortcutSequence};
use crate::text::{append_chars, append_str, chars_of, join_seqs, str_eq, string_from_chars};

verus! {

broadcast use vstd::seq::group_seq_axioms;

/// Result of checking a binding for conflicts or overrides.
#[derive(Debug)]
pub enum BindingNotice {
    /// Same context collision: a true conflict (warning).
    Conflict(String),
    /// Cross-context override (context shadows global or the reverse): informational.
    Overwrite(String),
}

/// A notice as plain values.
pub enum NoticeView {
    Conflict(Seq<char>),
    Overwrite(Seq<char>),
}

impl View for BindingNotice {
    type V = NoticeView;

    open spec fn view(&self) -> NoticeView {
        match self {
            BindingNotice::Conflict(m) => NoticeView::Conflict(m@),
            BindingNotice::Overwrite(m) => NoticeView::Overwrite(m@),
        }
    }
}

/// How a binding is named in a notice: its action's label in quotes and its
/// context's label in parentheses.
pub open spec fn spec_binding_desc(b: ResolvedView) -> Seq<char> {
    seq!['"'] + spec_name_label(b.1.spec_name()) + "\" ("@ + spec_context_label(b.2) + seq![')']
}

/// Whether `b` is the binding being edited: same chords, action name and context.
pub open spec fn is_excluded(b: ResolvedView, exclude: Option<(Seq<ChordView>, Seq<char>)>, context: Option<KeyContext>) -> bool {
    match exclude {
        Some((seq, action)) => b.0 == seq && b.1.spec_name() == action && b.2 == context,
        None => false,
    }
}

/// Whether `b` has the new chords and is not the binding being edited.
pub open spec fn is_considered(
    b: ResolvedView,
    new_seq: Seq<ChordView>,
    exclude: Option<(Seq<ChordView>, Seq<char>)>,
    context: Option<KeyContext>,
) -> bool {
    !is_excluded(b, exclude, context) && b.0 == new_seq
}

/// What a scan of the bindings found: the first one in the same context, the first
/// global one that a new context binding would shadow, and the contexts whose
/// bindings would shadow a new global one.
pub open spec fn spec_conflict_scan(
    bs: Seq<ResolvedView>,
    new_seq: Seq<ChordView>,
    exclude: Option<(Seq<ChordView>, Seq<char>)>,
    context: Option<KeyContext>,
) -> (Option<int>, Option<int>, Set<KeyContext>)
    decreases bs.len(),
{
    if bs.len() == 0 {
        (None, None, Set::empty())
    } else {
        let prev = spec_conflict_scan(bs.drop_last(), new_seq, exclude, context);
        let i = bs.len() - 1;
        let b = bs.last();
        if !is_considered(b, new_seq, exclude, context) {
            prev
        } else if b.2 == context {
            (if prev.0 is Some { prev.0 } else { Some(i) }, prev.1, prev.2)
        } else if b.2 is None {
            (prev.0, if prev.1 is Some { prev.1 } else { Some(i) }, prev.2)
        } else if context is None {
            (prev.0, prev.1, prev.2.insert(b.2->Some_0))
        } else {
            prev
        }
    }
}

/// The labels of the flagged contexts (content, quick access, right sidebar, search,
/// sidebar), in alphabetical order.
pub open spec fn spec_flag_labels(content: bool, quick_access: bool, right_sidebar: bool, search: bool, sidebar: bool) -> Seq<Seq<char>> {
    let l1 = if content { seq!["Content"@] } else { Seq::empty() };
    let l2 = if quick_access { seq!["Quick Access"@] } else { Seq::empty() };
    let l3 = if right_sidebar { seq!["Right Sidebar"@] } else { Seq::empty() };
    let l4 = if search { seq!["Search"@] } else { Seq::empty() };
    let l5 = if sidebar { seq!["Sidebar"@] } else { Seq::empty() };
    l1 + l2 + l3 + l4 + l5
}

/// The labels of the given contexts, in alphabetical order, each once.
pub open spec fn spec_sorted_context_labels(cs: Set<KeyContext>) -> Seq<Seq<char>> {
    spec_flag_labels(
        cs.contains(KeyContext::Content),
        cs.contains(KeyContext::QuickAccess),
        cs.contains(KeyContext::RightSidebar),
        cs.contains(KeyContext::Search),
        cs.contains(KeyContext::Sidebar),
    )
}

/// The message listing the contexts that shadow a new global binding.
pub open spec fn spec_overridden_message(labels: Seq<Seq<char>>) -> Seq<char> {
    "Will be overridden in: "@ + join_seqs(labels, ", "@)
}

/// The notice for a new binding with chords `new_seq` in `context`, against `bs`:
/// a conflict with the first binding of the same context; else, for a context
/// binding, the first global binding it shadows; else, for a global binding, the
/// contexts that shadow it; else nothing.
pub open spec fn spec_notice_for(
    bs: Seq<ResolvedView>,
    new_seq: Seq<ChordView>,
    exclude: Option<(Seq<ChordView>, Seq<char>)>,
    context: Option<KeyContext>,
) -> Option<NoticeView> {
    let scan = spec_conflict_scan(bs, new_seq, exclude, context);
    match scan.0 {
        Some(i) => Some(NoticeView::Conflict("Conflicts with "@ + spec_binding_desc(bs[i]))),
        None => match scan.1 {
            Some(i) => Some(NoticeView::Overwrite("Overrides "@ + spec_binding_desc(bs[i]) + " in this context"@)),
            None => {
                let labels = spec_sorted_context_labels(scan.2);
                if labels.len() > 0 {
                    Some(NoticeView::Overwrite(spec_overridden_message(labels)))
                } else {
                    None
                }
            },
        },
    }
}

/// The notice for the new key `new_key` (in notation): nothing when it is not a shortcut.
pub open spec fn spec_check_conflict(
    bs: Seq<ResolvedView>,
    new_key: Seq<char>,
    context: Option<KeyContext>,
    exclude_key: Option<Seq<char>>,
    exclude_action: Option<Seq<char>>,
) -> Option<NoticeView> {
    match spec_parse_shortcut(new_key) {
        None => None,
        Some(new_seq) => {
            let exclude = match (exclude_key, exclude_action) {
                (Some(k), Some(a)) => match spec_parse_shortcut(k) {
                    Some(s) => Some((s, a)),
                    None => None,
                },
                _ => None,
            };
            spec_notice_for(bs, new_seq, exclude, context)
        },
    }
}

/// Binding `i` is the first considered binding whose context is `want`.
pub open spec fn is_first_considered(
    bs: Seq<ResolvedView>,
    new_seq: Seq<ChordView>,
    exclude: Option<(Seq<ChordView>, Seq<char>)>,
    context: Option<KeyContext>,
    want: Option<KeyContext>,
    i: int,
) -> bool {
    &&& 0 <= i < bs.len()
    &&& is_considered(bs[i], new_seq, exclude, context)
    &&& bs[i].2 == want
    &&& forall|j: int| 0 <= j < i ==> !(is_considered(#[trigger] bs[j], new_seq, exclude, context) && bs[j].2 == want)
}

/// Some considered binding has context `want`.
pub open spec fn some_considered(
    bs: Seq<ResolvedView>,
    new_seq: Seq<ChordView>,
    exclude: Option<(Seq<ChordView>, Seq<char>)>,
    context: Option<KeyContext>,
    want: Option<KeyContext>,
) -> bool {
    exists|i: int| 0 <= i < bs.len() && is_considered(#[trigger] bs[i], new_seq, exclude, context) && bs[i].2 == want
}

/// The contexts of the considered context bindings.
pub open spec fn considered_contexts(
    bs: Seq<ResolvedView>,
    new_seq: Seq<ChordView>,
    exclude: Option<(Seq<ChordView>, Seq<char>)>,
    context: Option<KeyContext>,
) -> Set<KeyContext> {
    Set::new(|c: KeyContext| some_considered(bs, new_seq, exclude, context, Some(c)))
}

proof fn lemma_conflict_scan_parts(
    bs: Seq<ResolvedView>,
    new_seq: Seq<ChordView>,
    exclude: Option<(Seq<ChordView>, Seq<char>)>,
    context: Option<KeyContext>,
)
    ensures
        ({
            let scan = spec_conflict_scan(bs, new_seq, exclude, context);
            &&& scan.0 is None <==> !some_considered(bs, new_seq, exclude, context, context)
            &&& forall|i: int| is_first_considered(bs, new_seq, exclude, context, context, i) ==> scan.0 == Some(i)
            &&& scan.1 is None <==> !(context is Some && some_considered(bs, new_seq, exclude, context, None))
            &&& context is Some ==> forall|i: int|
                is_first_considered(bs, new_seq, exclude, context, None, i) ==> scan.1 == Some(i)
            &&& scan.2 == (if context is None {
                considered_contexts(bs, new_seq, exclude, context)
            } else {
                Set::<KeyContext>::empty()
            })
        }),
    decreases bs.len(),
{
    if bs.len() == 0 {
        assert(considered_contexts(bs, new_seq, exclude, context) =~= Set::<KeyContext>::empty());
    } else {
        let p = bs.drop_last();
        let last = bs.len() - 1;
        lemma_conflict_scan_parts(p, new_seq, exclude, context);
        assert forall|w: Option<KeyContext>| some_considered(bs, new_seq, exclude, context, w) == (some_considered(
            p,
            new_seq,
            exclude,
            context,
            w,
        ) || (is_considered(bs[last], new_seq, exclude, context) && bs[last].2 == w)) by {
            if some_considered(bs, new_seq, exclude, context, w) {
                let i = choose|i: int| 0 <= i < bs.len() && is_considered(#[trigger] bs[i], new_seq, exclude, context) && bs[i].2 == w;
                if i < last {
                    assert(p[i] == bs[i]);
                }
            }
            if some_considered(p, new_seq, exclude, context, w) {
                let i = choose|i: int| 0 <= i < p.len() && is_considered(#[trigger] p[i], new_seq, exclude, context) && p[i].2 == w;
                assert(p[i] == bs[i]);
            }
        }
        assert forall|w: Option<KeyContext>, i: int|
            is_first_considered(bs, new_seq, exclude, context, w, i) && i < last implies is_first_considered(
            p,
            new_seq,
            exclude,
            context,
            w,
            i,
        ) by {
            assert(p[i] == bs[i]);
            assert forall|j: int| 0 <= j < i implies !(is_considered(#[trigger] p[j], new_seq, exclude, context) && p[j].2 == w) by {
                assert(p[j] == bs[j]);
            }
        }
        assert forall|w: Option<KeyContext>, i: int|
            is_first_considered(bs, new_seq, exclude, context, w, i) && i == last implies !some_considered(
            p,
            new_seq,
            exclude,
            context,
            w,
        ) by {
            if some_considered(p, new_seq, exclude, context, w) {
                let k = choose|k: int| 0 <= k < p.len() && is_considered(#[trigger] p[k], new_seq, exclude, context) && p[k].2 == w;
                assert(p[k] == bs[k]);
            }
        }
        let scan = spec_conflict_scan(bs, new_seq, exclude, context);
        let prev = spec_conflict_scan(p, new_seq, exclude, context);
        assert forall|i: int| is_first_considered(bs, new_seq, exclude, context, context, i) implies scan.0 == Some(i) by {
            if i < last {
                assert(is_first_considered(p, new_seq, exclude, context, context, i));
            } else {
                assert(!some_considered(p, new_seq, exclude, context, context));
            }
        }
        if context is Some {
            assert forall|i: int| is_first_considered(bs, new_seq, exclude, context, None, i) implies scan.1 == Some(i) by {
                if i < last {
                    assert(is_first_considered(p, new_seq, exclude, context, None, i));
                } else {
                    assert(!some_considered(p, new_seq, exclude, context, None));
                }
            }
        }
        if context is None {
            assert forall|c: KeyContext| scan.2.contains(c) == considered_contexts(bs, new_seq, exclude, context).contains(c) by {
                assert(some_considered(bs, new_seq, exclude, context, Some(c)) == (some_considered(
                    p,
                    new_seq,
                    exclude,
                    context,
                    Some(c),
                ) || (is_considered(bs[last], new_seq, exclude, context) && bs[last].2 == Some(c))));
                assert(prev.2.contains(c) == considered_contexts(p, new_seq, exclude, context).contains(c));
            }
            assert(scan.2 =~= considered_contexts(bs, new_seq, exclude, context));
        }
    }
}

/// The notice for a new binding, case by case over the bindings with the same chords (those
/// considered: all but the one being edited). A considered binding of the same context is a
/// conflict with the first of them. Failing one, a new context binding with a considered
/// global binding overrides the first such; a new global binding with considered context
/// bindings is overridden in those contexts, listed by label in alphabetical order, each
/// once. Otherwise there is no notice.
pub proof fn lemma_notice_cases(
    bs: Seq<ResolvedView>,
    new_seq: Seq<ChordView>,
    exclude: Option<(Seq<ChordView>, Seq<char>)>,
    context: Option<KeyContext>,
)
    ensures
        ({
            let n = spec_notice_for(bs, new_seq, exclude, context);
            let same = some_considered(bs, new_seq, exclude, context, context);
            let shadowed = context is Some && some_considered(bs, new_seq, exclude, context, None);
            let shadowing = context is None && considered_contexts(bs, new_seq, exclude, context) != Set::<KeyContext>::empty();
            &&& forall|i: int| is_first_considered(bs, new_seq, exclude, context, context, i) ==> n == Some(
                NoticeView::Conflict("Conflicts with "@ + spec_binding_desc(bs[i])),
            )
            &&& same <==> (n is Some && n->Some_0 is Conflict)
            &&& !same ==> forall|i: int| context is Some && is_first_considered(bs, new_seq, exclude, context, None, i)
                ==> n == Some(NoticeView::Overwrite("Overrides "@ + spec_binding_desc(bs[i]) + " in this context"@))
            &&& !same && shadowing ==> n == Some(NoticeView::Overwrite(spec_overridden_message(
                spec_sorted_context_labels(considered_contexts(bs, new_seq, exclude, context)),
            )))
            &&& !same && !shadowed && !shadowing ==> n is None
        }),
{
    lemma_conflict_scan_parts(bs, new_seq, exclude, context);
    let cs = considered_contexts(bs, new_seq, exclude, context);
    if cs != Set::<KeyContext>::empty() {
        let c = choose|c: KeyContext| cs.contains(c);
        if !cs.contains(c) {
            assert(cs =~= Set::<KeyContext>::empty());
        }
        assert(spec_sorted_context_labels(cs).len() > 0) by {
            match c {
                KeyContext::Content => {},
                KeyContext::QuickAccess => {},
                KeyContext::RightSidebar => {},
                KeyContext::Search => {},
                KeyContext::Sidebar => {},
            }
        }
    } else {
        assert(spec_sorted_context_labels(cs).len() == 0) by {
            assert(!cs.contains(KeyContext::Content));
            assert(!cs.contains(KeyContext::QuickAccess));
            assert(!cs.contains(KeyContext::RightSidebar));
            assert(!cs.contains(KeyContext::Search));
            assert(!cs.contains(KeyContext::Sidebar));
        }
    }
}

/// The view of an optional notice.
pub open spec fn notice_view(n: Option<BindingNotice>) -> Option<NoticeView> {
    match n {
        Some(b) => Some(b@),
        None => None,
    }
}

/// The text of an optional string slice.
pub open spec fn opt_view(s: Option<&str>) -> Option<Seq<char>> {
    match s {
        Some(x) => Some(x@),
        None => None,
    }
}

/// How a binding is named in a notice.
fn binding_desc(b: &ResolvedBinding) -> (r: Vec<char>)
    ensures
        r@ == spec_binding_desc(b@),
{
    let mut out: Vec<char> = Vec::new();
    out.push('"');
    let name = chars_of(b.action.as_str());
    let label = name_label(name.as_slice());
    append_chars(&mut out, label.as_slice());
    append_str(&mut out, "\" (");
    append_str(&mut out, context_label(b.context));
    out.push(')');
    out
}

/// Whether two optional contexts are the same.
fn same_context(a: Option<KeyContext>, b: Option<KeyContext>) -> (r: bool)
    ensures
        r == (a == b),
{
    match (a, b) {
        (None, None) => true,
        (Some(x), Some(y)) => x == y,
        _ => false,
    }
}

/// Check whether a new binding conflicts with or overrides an existing binding.
pub fn check_conflict(resolved: &[ResolvedBinding], new_key: &str, context: Option<KeyContext>) -> (r: Option<BindingNotice>)
    ensures
        notice_view(r) == spec_check_conflict(resolved_views(resolved@), new_key@, context, None, None),
{
    check_conflict_inner(resolved, new_key, context, None, None)
}

/// Check for conflicts or overrides, leaving out the binding being edited.
pub fn check_conflict_excluding(
    resolved: &[ResolvedBinding],
    new_key: &str,
    context: Option<KeyContext>,
    exclude_key: &str,
    exclude_action: &str,
) -> (r: Option<BindingNotice>)
    ensures
        notice_view(r) == spec_check_conflict(
            resolved_views(resolved@),
            new_key@,
            context,
            Some(exclude_key@),
            Some(exclude_action@),
        ),
{
    check_conflict_inner(resolved, new_key, context, Some(exclude_key), Some(exclude_action))
}

/// The chords of an optional shortcut.
pub open spec fn opt_seq_view(s: Option<ShortcutSequence>) -> Option<Seq<ChordView>> {
    match s {
        Some(q) => Some(q@),
        None => None,
    }
}

/// The binding being edited, as plain values, when both its chords and action are known.
pub open spec fn exclude_of(seq: Option<Seq<ChordView>>, action: Option<Seq<char>>) -> Option<(Seq<ChordView>, Seq<char>)> {
    match (seq, action) {
        (Some(s), Some(a)) => Some((s, a)),
        _ => None,
    }
}

/// The message for the flagged contexts, or `None` when no context is flagged.
fn overridden_message(content: bool, quick_access: bool, right_sidebar: bool, search: bool, sidebar: bool) -> (r: Option<Vec<char>>)
    ensures
        ({
            let labels = spec_flag_labels(content, quick_access, right_sidebar, search, sidebar);
            if labels.len() > 0 {
                r matches Some(m) && m@ == spec_overridden_message(labels)
            } else {
                r is None
            }
        }),
{
    let ghost expected = spec_flag_labels(content, quick_access, right_sidebar, search, sidebar);
    let mut labels: Vec<&str> = Vec::new();
    if content {
        labels.push("Content");
    }
    if quick_access {
        labels.push("Quick Access");
    }
    if right_sidebar {
        labels.push("Right Sidebar");
    }
    if search {
        labels.push("Search");
    }
    if sidebar {
        labels.push("Sidebar");
    }
    assert(labels@.map_values(|s: &str| s@) =~= expected);
    if labels.len() == 0 {
        return None;
    }
    let mut msg: Vec<char> = Vec::new();
    append_str(&mut msg, "Will be overridden in: ");
    let mut k: usize = 0;
    while k < labels.len()
        invariant
            k <= labels@.len(),
            labels@.map_values(|s: &str| s@) == expected,
            msg@ == "Will be overridden in: "@ + join_seqs(expected.take(k as int), ", "@),
        decreases labels@.len() - k,
    {
        if k > 0 {
            append_str(&mut msg, ", ");
        }
        append_str(&mut msg, labels[k]);
        proof {
            assert(expected.take(k + 1).drop_last() =~= expected.take(k as int));
            assert(expected[k as int] == labels@[k as int]@);
            if k == 0 {
                assert(expected.take(k + 1) =~= seq![expected[0]]);
            }
        }
        k += 1;
    }
    assert(expected.take(expected.len() as int) =~= expected);
    Some(msg)
}

/// The notice for already parsed chords.
#[verifier::rlimit(40)]
fn notice_for(
    resolved: &[ResolvedBinding],
    new_seq: &ShortcutSequence,
    exclude_seq: &Option<ShortcutSequence>,
    exclude_action: Option<&str>,
    context: Option<KeyContext>,
) -> (r: Option<BindingNotice>)
    ensures
        notice_view(r) == spec_notice_for(
            resolved_views(resolved@),
            new_seq@,
            exclude_of(opt_seq_view(*exclude_seq), opt_view(exclude_action)),
            context,
        ),
{
    let ghost exclude = exclude_of(opt_seq_view(*exclude_seq), opt_view(exclude_action));
    let ghost bs = resolved_views(resolved@);
    let mut overrides_global: Option<Vec<char>> = None;
    let mut seen_content = false;
    let mut seen_quick_access = false;
    let mut seen_right_sidebar = false;
    let mut seen_search = false;
    let mut seen_sidebar = false;
    let mut i: usize = 0;
    assert(bs.take(0) =~= Seq::<ResolvedView>::empty());
    while i < resolved.len()
        invariant
            bs == resolved_views(resolved@),
            exclude == exclude_of(opt_seq_view(*exclude_seq), opt_view(exclude_action)),
            i <= bs.len(),
            spec_conflict_scan(bs.take(i as int), new_seq@, exclude, context).0 is None,
            match spec_conflict_scan(bs.take(i as int), new_seq@, exclude, context).1 {
                Some(k) => overrides_global matches Some(d) && d@ == spec_binding_desc(bs[k]) && 0 <= k < bs.len(),
                None => overrides_global is None,
            },
            ({
                let seen = spec_conflict_scan(bs.take(i as int), new_seq@, exclude, context).2;
                &&& seen_content == seen.contains(KeyContext::Content)
                &&& seen_quick_access == seen.contains(KeyContext::QuickAccess)
                &&& seen_right_sidebar == seen.contains(KeyContext::RightSidebar)
                &&& seen_search == seen.contains(KeyContext::Search)
                &&& seen_sidebar == seen.contains(KeyContext::Sidebar)
            }),
        decreases bs.len() - i,
    {
        let b = &resolved[i];
        assert(bs.take(i + 1).drop_last() =~= bs.take(i as int));
        assert(bs.take(i + 1).last() == b@);
        let excluded = match (exclude_seq, exclude_action) {
            (Some(ex_seq), Some(ea)) => {
                chords_match(b.sequence.chords.as_slice(), ex_seq.chords.as_slice())
                    && str_eq(b.action.as_str(), ea) && same_context(b.context, context)
            },
            _ => false,
        };
        assert(excluded == is_excluded(b@, exclude, context));
        if !excluded && chords_match(b.sequence.chords.as_slice(), new_seq.chords.as_slice()) {
            if same_context(b.context, context) {
                let desc = binding_desc(b);
                let mut msg: Vec<char> = Vec::new();
                append_str(&mut msg, "Conflicts with ");
                append_chars(&mut msg, desc.as_slice());
                proof {
                    lemma_scan_keeps_first(bs, i as int + 1, new_seq@, exclude, context);
                    assert(bs.take(bs.len() as int) =~= bs);
                }
                return Some(BindingNotice::Conflict(string_from_chars(msg.as_slice())));
            }
            match b.context {
                None => {
                    if overrides_global.is_none() {
                        overrides_global = Some(binding_desc(b));
                    }
                },
                Some(c) => {
                    if context.is_none() {
                        match c {
                            KeyContext::Content => { seen_content = true; },
                            KeyContext::QuickAccess => { seen_quick_access = true; },
                            KeyContext::RightSidebar => { seen_right_sidebar = true; },
                            KeyContext::Search => { seen_search = true; },
                            KeyContext::Sidebar => { seen_sidebar = true; },
                        }
                    }
                },
            }
        }
        i += 1;
    }
    assert(bs.take(bs.len() as int) =~= bs);
    if let Some(desc) = overrides_global {
        let mut msg: Vec<char> = Vec::new();
        append_str(&mut msg, "Overrides ");
        append_chars(&mut msg, desc.as_slice());
        append_str(&mut msg, " in this context");
        return Some(BindingNotice::Overwrite(string_from_chars(msg.as_slice())));
    }
    match overridden_message(seen_content, seen_quick_access, seen_right_sidebar, seen_search, seen_sidebar) {
        Some(m) => Some(BindingNotice::Overwrite(string_from_chars(m.as_slice()))),
        None => None,
    }
}

/// The scan behind both checks.
fn check_conflict_inner(
    resolved: &[ResolvedBinding],
    new_key: &str,
    context: Option<KeyContext>,
    exclude_key: Option<&str>,
    exclude_action: Option<&str>,
) -> (r: Option<BindingNotice>)
    ensures
        notice_view(r) == spec_check_conflict(
            resolved_views(resolved@),
            new_key@,
            context,
            opt_view(exclude_key),
            opt_view(exclude_action),
        ),
{
    let new_seq = match ShortcutSequence::parse(new_key) {
        Ok(seq) => seq,
        Err(_) => return None,
    };
    let exclude_seq: Option<ShortcutSequence> = match exclude_key {
        Some(ek) => match ShortcutSequence::parse(ek) {
            Ok(s) => Some(s),
            Err(_) => None,
        },
        None => None,
    };
    notice_for(resolved, &new_seq, &exclude_seq, exclude_action, context)
}

/// Once a conflict is found in a prefix, longer prefixes report that same one.
proof fn lemma_scan_keeps_first(
    bs: Seq<ResolvedView>,
    n: int,
    new_seq: Seq<ChordView>,
    exclude: Option<(Seq<ChordView>, Seq<char>)>,
    context: Option<KeyContext>,
)
    requires
        0 <= n <= bs.len(),
    ensures
        spec_conflict_scan(bs.take(n), new_seq, exclude, context).0 is Some ==>
            spec_conflict_scan(bs, new_seq, exclude, context).0 == spec_conflict_scan(bs.take(n), new_seq, exclude, context).0,
    decreases bs.len() - n,
{
    if n < bs.len() {
        lemma_scan_keeps_first(bs, n + 1, new_seq, exclude, context);
        assert(bs.take(n + 1).drop_last() =~= bs.take(n));
    } else {
        assert(bs.take(n) =~= bs);
    }
}

} // verus!
