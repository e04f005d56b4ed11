//! Resolution of configured bindings for the engine, and the built-in presets.
use vstd::prelude::*;

use crate::config::{key_action_views, BindingSet, KeyAction, KeyActionView};
use crate::keybindings::action::{lemma_action_name_injective, parse_outcome, Action};
use crate::keybindings::context::KeyContext;
use crate::keybindings::shortcut::{
    chord_eq, spec_parse_shortcut, ChordView, KeyChord, ShortcutSequence, chord_views,
};

pub mod default;
pub mod emacs;
pub mod vim;

verus! {

/// A fully resolved keybinding ready for matching.
#[derive(Debug)]
pub struct ResolvedBinding {
    pub sequence: ShortcutSequence,
    pub action: Action,
    pub context: Option<KeyContext>,
}

/// A resolved binding as plain values: `(chords, action, context)`.
pub type ResolvedView = (Seq<ChordView>, Action, Option<KeyContext>);

impl View for ResolvedBinding {
    type V = ResolvedView;

    open spec fn view(&self) -> ResolvedView {
        (self.sequence@, self.action, self.context)
    }
}

/// The views of a list of resolved bindings.
pub open spec fn resolved_views(v: Seq<ResolvedBinding>) -> Seq<ResolvedView> {
    v.map_values(|b: ResolvedBinding| b@)
}

/// The action named `s`, if any.
pub open spec fn spec_parse_action(s: Seq<char>) -> Option<Action> {
    if exists|a: Action| #[trigger] a.spec_name() == s {
        Some(choose|a: Action| #[trigger] a.spec_name() == s)
    } else {
        None
    }
}

/// Relates the outcome of `Action::parse` to `spec_parse_action`.
pub proof fn lemma_parse_outcome_action(s: Seq<char>, r: Result<Action, crate::keybindings::action::ActionParseError>)
    requires
        parse_outcome(s, r),
    ensures
        match r {
            Ok(a) => spec_parse_action(s) == Some(a),
            Err(_) => spec_parse_action(s) is None,
        },
{
    match r {
        Ok(a) => {
            assert(a.spec_name() == s);
            let b = choose|b: Action| #[trigger] b.spec_name() == s;
            lemma_action_name_injective(a, b);
        },
        Err(_) => {},
    }
}

/// The bindings that a list of configured entries resolves to in `context`:
/// entries whose key is not a shortcut or whose action is unknown are skipped,
/// the others keep their order.
pub open spec fn spec_resolve_field(kas: Seq<KeyActionView>, context: Option<KeyContext>) -> Seq<ResolvedView>
    decreases kas.len(),
{
    if kas.len() == 0 {
        Seq::empty()
    } else {
        let prev = spec_resolve_field(kas.drop_last(), context);
        let ka = kas.last();
        match (spec_parse_shortcut(ka.0), spec_parse_action(ka.1)) {
            (Some(q), Some(a)) => prev.push((q, a, context)),
            _ => prev,
        }
    }
}

/// All bindings of a set, resolved: global first, then content, sidebar,
/// quick access, right sidebar and search.
pub open spec fn spec_resolve_bindings(b: &BindingSet) -> Seq<ResolvedView> {
    spec_resolve_field(key_action_views(b.global@), None)
        + spec_resolve_field(key_action_views(b.content@), Some(KeyContext::Content))
        + spec_resolve_field(key_action_views(b.sidebar@), Some(KeyContext::Sidebar))
        + spec_resolve_field(key_action_views(b.quick_access@), Some(KeyContext::QuickAccess))
        + spec_resolve_field(key_action_views(b.right_sidebar@), Some(KeyContext::RightSidebar))
        + spec_resolve_field(key_action_views(b.search@), Some(KeyContext::Search))
}

/// Resolve the entries of one context and append them to `result`.
pub fn resolve_field(actions: &[KeyAction], context: Option<KeyContext>, result: &mut Vec<ResolvedBinding>)
    ensures
        resolved_views(final(result)@) == resolved_views(old(result)@) + spec_resolve_field(
            key_action_views(actions@),
            context,
        ),
{
    let ghost start = resolved_views(result@);
    let ghost kas = key_action_views(actions@);
    let mut i: usize = 0;
    assert(kas.take(0) =~= Seq::<KeyActionView>::empty());
    assert(start + spec_resolve_field(kas.take(0), context) =~= start);
    while i < actions.len()
        invariant
            i <= actions@.len(),
            kas == key_action_views(actions@),
            resolved_views(result@) == start + spec_resolve_field(kas.take(i as int), context),
        decreases actions@.len() - i,
    {
        let ka = &actions[i];
        assert(kas.take(i + 1).drop_last() =~= kas.take(i as int));
        assert(kas.take(i + 1).last() == ka@);
        match ShortcutSequence::parse(ka.key.as_str()) {
            Ok(sequence) => {
                let parsed = Action::parse(ka.action.as_str());
                proof {
                    lemma_parse_outcome_action(ka.action@, parsed);
                }
                match parsed {
                    Ok(action) => {
                        let ghost before = result@;
                        let b = ResolvedBinding { sequence, action, context };
                        result.push(b);
                        assert(resolved_views(result@) =~= resolved_views(before).push(b@));
                        assert(start + spec_resolve_field(kas.take(i as int), context).push(b@) =~= (start
                            + spec_resolve_field(kas.take(i as int), context)).push(b@));
                    },
                    Err(_) => {},
                }
            },
            Err(_) => {},
        }
        i += 1;
    }
    assert(kas.take(actions@.len() as int) =~= kas);
}

impl BindingSet {
    /// Flatten into resolved bindings for engine consumption.
    pub fn into_resolved_bindings(self) -> (r: Vec<ResolvedBinding>)
        ensures
            resolved_views(r@) == spec_resolve_bindings(&self),
    {
        let mut result: Vec<ResolvedBinding> = Vec::new();
        assert(resolved_views(result@) =~= Seq::<ResolvedView>::empty());
        resolve_field(self.global.as_slice(), None, &mut result);
        resolve_field(self.content.as_slice(), Some(KeyContext::Content), &mut result);
        resolve_field(self.sidebar.as_slice(), Some(KeyContext::Sidebar), &mut result);
        resolve_field(self.quick_access.as_slice(), Some(KeyContext::QuickAccess), &mut result);
        resolve_field(self.right_sidebar.as_slice(), Some(KeyContext::RightSidebar), &mut result);
        resolve_field(self.search.as_slice(), Some(KeyContext::Search), &mut result);
        assert(resolved_views(result@) =~= spec_resolve_bindings(&self));
        result
    }
}

/// Resolve bindings from configuration for engine consumption.
///
/// All bindings live in the given set; there is no hidden base layer.
pub fn resolve_bindings(bindings: &BindingSet) -> (r: Vec<ResolvedBinding>)
    ensures
        resolved_views(r@) == spec_resolve_bindings(bindings),
{
    let mut result: Vec<ResolvedBinding> = Vec::new();
    assert(resolved_views(result@) =~= Seq::<ResolvedView>::empty());
    resolve_field(bindings.global.as_slice(), None, &mut result);
    resolve_field(bindings.content.as_slice(), Some(KeyContext::Content), &mut result);
    resolve_field(bindings.sidebar.as_slice(), Some(KeyContext::Sidebar), &mut result);
    resolve_field(bindings.quick_access.as_slice(), Some(KeyContext::QuickAccess), &mut result);
    resolve_field(bindings.right_sidebar.as_slice(), Some(KeyContext::RightSidebar), &mut result);
    resolve_field(bindings.search.as_slice(), Some(KeyContext::Search), &mut result);
    assert(resolved_views(result@) =~= spec_resolve_bindings(bindings));
    result
}

/// Whether every entry of a list names a valid shortcut and a known action, and no
/// two entries denote the same shortcut.
pub open spec fn spec_field_valid(kas: Seq<KeyActionView>) -> bool {
    &&& forall|i: int| 0 <= i < kas.len() ==> (#[trigger] spec_parse_shortcut(kas[i].0)) is Some
    &&& forall|i: int| 0 <= i < kas.len() ==> (#[trigger] spec_parse_action(kas[i].1)) is Some
    &&& forall|i: int, j: int|
        0 <= i < j < kas.len() ==> #[trigger] spec_parse_shortcut(kas[i].0) != #[trigger] spec_parse_shortcut(kas[j].0)
}

/// Whether every context list of a binding set is valid.
pub open spec fn spec_preset_valid(b: &BindingSet) -> bool {
    &&& spec_field_valid(key_action_views(b.global@))
    &&& spec_field_valid(key_action_views(b.content@))
    &&& spec_field_valid(key_action_views(b.sidebar@))
    &&& spec_field_valid(key_action_views(b.quick_access@))
    &&& spec_field_valid(key_action_views(b.right_sidebar@))
    &&& spec_field_valid(key_action_views(b.search@))
}

/// Check one context list.
fn validate_field(actions: &[KeyAction]) -> (ok: bool)
    ensures
        ok == spec_field_valid(key_action_views(actions@)),
{
    let ghost kas = key_action_views(actions@);
    let mut seqs: Vec<ShortcutSequence> = Vec::new();
    let mut i: usize = 0;
    while i < actions.len()
        invariant
            kas == key_action_views(actions@),
            i <= actions@.len(),
            seqs@.len() == i,
            forall|k: int| 0 <= k < i ==> spec_parse_shortcut(#[trigger] kas[k].0) == Some(seqs@[k]@),
            forall|k: int| 0 <= k < i ==> (#[trigger] spec_parse_action(kas[k].1)) is Some,
        decreases actions@.len() - i,
    {
        let ka = &actions[i];
        assert(kas[i as int] == ka@);
        match ShortcutSequence::parse(ka.key.as_str()) {
            Ok(q) => {
                seqs.push(q);
            },
            Err(_) => {
                assert(spec_parse_shortcut(kas[i as int].0) is None);
                return false;
            },
        }
        let parsed = Action::parse(ka.action.as_str());
        proof {
            lemma_parse_outcome_action(ka.action@, parsed);
        }
        if parsed.is_err() {
            assert(spec_parse_action(kas[i as int].1) is None);
            return false;
        }
        i += 1;
    }
    let n = seqs.len();
    let mut a: usize = 0;
    while a < n
        invariant
            n == seqs@.len(),
            n == kas.len(),
            kas == key_action_views(actions@),
            a <= n,
            forall|k: int| 0 <= k < n ==> spec_parse_shortcut(#[trigger] kas[k].0) == Some(seqs@[k]@),
            forall|k: int| 0 <= k < n ==> (#[trigger] spec_parse_action(kas[k].1)) is Some,
            forall|x: int, y: int| 0 <= x < a && x < y < n ==> #[trigger] seqs@[x]@ != #[trigger] seqs@[y]@,
        decreases n - a,
    {
        let mut b: usize = a + 1;
        while b < n
            invariant
                n == seqs@.len(),
                n == kas.len(),
                kas == key_action_views(actions@),
                forall|k: int| 0 <= k < n ==> spec_parse_shortcut(#[trigger] kas[k].0) == Some(seqs@[k]@),
                a < n,
                a + 1 <= b <= n,
                forall|y: int| a < y < b ==> seqs@[a as int]@ != #[trigger] seqs@[y]@,
            decreases n - b,
        {
            if crate::keybindings::engine::chords_match(seqs[a].chords.as_slice(), seqs[b].chords.as_slice()) {
                assert(seqs@[a as int]@ == seqs@[b as int]@);
                assert(spec_parse_shortcut(kas[a as int].0) == spec_parse_shortcut(kas[b as int].0));
                return false;
            }
            b += 1;
        }
        a += 1;
    }
    assert forall|x: int, y: int| 0 <= x < y < kas.len() implies #[trigger] spec_parse_shortcut(kas[x].0) != #[trigger] spec_parse_shortcut(kas[y].0) by {
        assert(seqs@[x]@ != seqs@[y]@);
    }
    true
}

/// Check a preset: every key is a shortcut, every action is known, and no
/// context lists the same shortcut twice.
pub fn validate_preset_bindings(bindings: &BindingSet) -> (ok: bool)
    ensures
        ok == spec_preset_valid(bindings),
{
    validate_field(bindings.global.as_slice()) && validate_field(bindings.content.as_slice())
        && validate_field(bindings.sidebar.as_slice()) && validate_field(bindings.quick_access.as_slice())
        && validate_field(bindings.right_sidebar.as_slice()) && validate_field(bindings.search.as_slice())
}

/// Default bindings for fresh installs: the default preset (browser-style shortcuts).
pub fn default_bindings() -> (b: BindingSet)
    ensures
        default::is_preset(b),
{
    default::bindings()
}

} // verus!
