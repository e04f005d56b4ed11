//! The state machine that matches key presses against resolved bindings.
use vstd::prelude::*;

use crate::config::BindingSet;
use crate::keybindings::action::Action;
use crate::keybindings::context::KeyContext;
use crate::keybindings::presets::{resolve_bindings, resolved_views, spec_resolve_bindings, ResolvedBinding, ResolvedView};
use crate::keybindings::shortcut::{chord_clone, chord_eq, chord_views, ChordView, KeyChord};

verus! {

/// `std::time::Instant`, carried as an opaque timestamp.
#[verifier::external_type_specification]
#[verifier::external_body]
pub struct ExInstant(std::time::Instant);

/// The current time (`Instant::now`); nothing is known of the value.
#[verifier::external_body]
fn instant_now() -> std::time::Instant {
    std::time::Instant::now()
}

/// Milliseconds elapsed since `t` (`Instant::elapsed`, in whole milliseconds);
/// nothing is known of the value, which depends on the clock.
#[verifier::external_body]
fn millis_since(t: &std::time::Instant) -> u128 {
    t.elapsed().as_millis()
}

/// Result of processing a key input through the engine.
#[derive(Debug, Clone, Copy, PartialEq, Eq, Structural)]
pub enum KeyMatchResult {
    /// No binding matched; input consumed.
    NoMatch,
    /// Partial match; waiting for more keys (sequence in progress).
    Pending,
    /// A binding matched; execute the returned action.
    Matched(Action),
}

/// Sequence state: idle, or part of a multi-chord binding typed.
pub enum KeySequenceState {
    Idle,
    Pending { keys: Vec<KeyChord>, started_at: std::time::Instant },
}

/// Default sequence timeout in milliseconds.
pub const DEFAULT_SEQUENCE_TIMEOUT_MS: u128 = 1000;

/// State machine for keybinding sequence matching.
pub struct KeybindingEngine {
    bindings: Vec<ResolvedBinding>,
    state: KeySequenceState,
    sequence_timeout_ms: u128,
}

/// Whether a binding of context `b` is visible from the focused context `ctx`.
pub open spec fn visible(b: Option<KeyContext>, ctx: KeyContext) -> bool {
    b is None || b == Some(ctx)
}

/// Scan of the bindings for `keys` in `ctx`: the last visible context-specific exact
/// match, the last visible global exact match seen while no context-specific one had
/// been seen, and whether some visible binding is longer than `keys` and starts with them.
pub open spec fn spec_scan(bs: Seq<ResolvedView>, keys: Seq<ChordView>, ctx: KeyContext) -> (Option<Action>, Option<Action>, bool)
    decreases bs.len(),
{
    if bs.len() == 0 {
        (None, None, false)
    } else {
        let prev = spec_scan(bs.drop_last(), keys, ctx);
        let b = bs.last();
        if !visible(b.2, ctx) {
            prev
        } else {
            let exact = b.0 == keys;
            (
                if exact && b.2 is Some { Some(b.1) } else { prev.0 },
                if exact && b.2 is None && prev.0 is None { Some(b.1) } else { prev.1 },
                prev.2 || (b.0.len() > keys.len() && b.0.take(keys.len() as int) == keys),
            )
        }
    }
}

/// The exact match (context-specific before global) and whether a longer binding
/// starts with `keys`.
pub open spec fn spec_find_match(bs: Seq<ResolvedView>, keys: Seq<ChordView>, ctx: KeyContext) -> (Option<Action>, bool) {
    let s = spec_scan(bs, keys, ctx);
    (if s.0 is Some { s.0 } else { s.1 }, s.2)
}

/// One step of the engine: from the typed prefix `pending` (if any) and a key press,
/// the new typed prefix and the result. `timed_out` says whether the pending
/// sequence has outlived the timeout.
pub open spec fn spec_process(
    bs: Seq<ResolvedView>,
    pending: Option<Seq<ChordView>>,
    input: ChordView,
    is_repeat: bool,
    ctx: KeyContext,
    timed_out: bool,
) -> (Option<Seq<ChordView>>, KeyMatchResult) {
    let pending0 = if timed_out { None } else { pending };
    if pending0 is Some && is_repeat {
        (pending0, KeyMatchResult::Pending)
    } else {
        let current = match pending0 {
            None => seq![input],
            Some(keys) => keys.push(input),
        };
        let m = spec_find_match(bs, current, ctx);
        if m.0 is Some {
            (None, KeyMatchResult::Matched(m.0->Some_0))
        } else if m.1 {
            (Some(current), KeyMatchResult::Pending)
        } else if current.len() > 1 {
            let m1 = spec_find_match(bs, seq![input], ctx);
            if m1.0 is Some {
                (None, KeyMatchResult::Matched(m1.0->Some_0))
            } else if m1.1 {
                (Some(seq![input]), KeyMatchResult::Pending)
            } else {
                (None, KeyMatchResult::NoMatch)
            }
        } else {
            (None, KeyMatchResult::NoMatch)
        }
    }
}

/// After a key press, a sequence stays pending exactly when the result is `Pending`:
/// a match or a miss always leaves the engine idle.
pub proof fn lemma_process_pending_iff(
    bs: Seq<ResolvedView>,
    pending: Option<Seq<ChordView>>,
    input: ChordView,
    is_repeat: bool,
    ctx: KeyContext,
    timed_out: bool,
)
    ensures
        ({
            let (next, r) = spec_process(bs, pending, input, is_repeat, ctx, timed_out);
            next is Some <==> r == KeyMatchResult::Pending
        }),
{
}

/// A repeated key while a sequence is pending and not timed out changes nothing and
/// answers `Pending`.
pub proof fn lemma_repeat_keeps_sequence(
    bs: Seq<ResolvedView>,
    keys: Seq<ChordView>,
    input: ChordView,
    ctx: KeyContext,
)
    ensures
        spec_process(bs, Some(keys), input, true, ctx, false) == (Some(keys), KeyMatchResult::Pending),
{
}

/// Bindings of another context than the focused one have no effect on matching.
pub proof fn lemma_other_context_invisible(
    bs: Seq<ResolvedView>,
    b: ResolvedView,
    keys: Seq<ChordView>,
    ctx: KeyContext,
)
    requires
        b.2 is Some && b.2 != Some(ctx),
    ensures
        spec_find_match(bs.push(b), keys, ctx) == spec_find_match(bs, keys, ctx),
{
    assert(bs.push(b).drop_last() =~= bs);
}

/// A binding of the focused context takes priority: when some binding of that context
/// matches the keys exactly, the match found is the action of such a binding, whatever
/// global bindings also match.
pub proof fn lemma_context_binding_wins(bs: Seq<ResolvedView>, keys: Seq<ChordView>, ctx: KeyContext)
    requires
        exists|i: int| 0 <= i < bs.len() && (#[trigger] bs[i]).2 == Some(ctx) && bs[i].0 == keys,
    ensures
        spec_find_match(bs, keys, ctx).0 matches Some(a) && exists|j: int|
            0 <= j < bs.len() && (#[trigger] bs[j]).2 == Some(ctx) && bs[j].0 == keys && bs[j].1 == a,
    decreases bs.len(),
{
    lemma_scan_context_part(bs, keys, ctx);
}

/// Binding `i` is bound to exactly `keys` for `context` (a context, or `None` for the global
/// bindings), and no later binding is.
pub open spec fn is_last_exact(bs: Seq<ResolvedView>, keys: Seq<ChordView>, context: Option<KeyContext>, i: int) -> bool {
    &&& 0 <= i < bs.len()
    &&& bs[i].2 == context
    &&& bs[i].0 == keys
    &&& forall|j: int| i < j < bs.len() ==> !((#[trigger] bs[j]).2 == context && bs[j].0 == keys)
}

/// Some binding visible from `ctx` is bound to a longer sequence that starts with `keys`.
pub open spec fn has_longer_visible(bs: Seq<ResolvedView>, keys: Seq<ChordView>, ctx: KeyContext) -> bool {
    exists|i: int|
        0 <= i < bs.len() && visible((#[trigger] bs[i]).2, ctx) && bs[i].0.len() > keys.len()
            && bs[i].0.take(keys.len() as int) == keys
}

proof fn lemma_scan_last_context(bs: Seq<ResolvedView>, keys: Seq<ChordView>, ctx: KeyContext, i: int)
    requires
        is_last_exact(bs, keys, Some(ctx), i),
    ensures
        spec_scan(bs, keys, ctx).0 == Some(bs[i].1),
    decreases bs.len(),
{
    let p = bs.drop_last();
    if i < bs.len() - 1 {
        assert(!(bs[bs.len() - 1].2 == Some(ctx) && bs[bs.len() - 1].0 == keys));
        assert forall|j: int| i < j < p.len() implies !((#[trigger] p[j]).2 == Some(ctx) && p[j].0 == keys) by {
            assert(p[j] == bs[j]);
        }
        assert(p[i] == bs[i]);
        lemma_scan_last_context(p, keys, ctx, i);
    }
}

proof fn lemma_scan_last_global(bs: Seq<ResolvedView>, keys: Seq<ChordView>, ctx: KeyContext, i: int)
    requires
        is_last_exact(bs, keys, None, i),
        forall|j: int| 0 <= j < bs.len() ==> !((#[trigger] bs[j]).2 == Some(ctx) && bs[j].0 == keys),
    ensures
        spec_scan(bs, keys, ctx).1 == Some(bs[i].1),
    decreases bs.len(),
{
    let p = bs.drop_last();
    assert forall|j: int| 0 <= j < p.len() implies !((#[trigger] p[j]).2 == Some(ctx) && p[j].0 == keys) by {
        assert(p[j] == bs[j]);
    }
    lemma_scan_context_part(p, keys, ctx);
    if i < bs.len() - 1 {
        assert(!(bs[bs.len() - 1].2 == None::<KeyContext> && bs[bs.len() - 1].0 == keys));
        assert forall|j: int| i < j < p.len() implies !((#[trigger] p[j]).2 == None::<KeyContext> && p[j].0 == keys) by {
            assert(p[j] == bs[j]);
        }
        assert(p[i] == bs[i]);
        lemma_scan_last_global(p, keys, ctx, i);
    }
}

proof fn lemma_scan_no_global(bs: Seq<ResolvedView>, keys: Seq<ChordView>, ctx: KeyContext)
    requires
        forall|j: int| 0 <= j < bs.len() ==> !((#[trigger] bs[j]).2 == None::<KeyContext> && bs[j].0 == keys),
    ensures
        spec_scan(bs, keys, ctx).1 is None,
    decreases bs.len(),
{
    if bs.len() > 0 {
        let p = bs.drop_last();
        assert forall|j: int| 0 <= j < p.len() implies !((#[trigger] p[j]).2 == None::<KeyContext> && p[j].0 == keys) by {
            assert(p[j] == bs[j]);
        }
        assert(!(bs[bs.len() - 1].2 == None::<KeyContext> && bs[bs.len() - 1].0 == keys));
        lemma_scan_no_global(p, keys, ctx);
    }
}

proof fn lemma_scan_longer(bs: Seq<ResolvedView>, keys: Seq<ChordView>, ctx: KeyContext)
    ensures
        spec_scan(bs, keys, ctx).2 == has_longer_visible(bs, keys, ctx),
    decreases bs.len(),
{
    if bs.len() > 0 {
        let p = bs.drop_last();
        lemma_scan_longer(p, keys, ctx);
        if has_longer_visible(p, keys, ctx) {
            let i = choose|i: int|
                0 <= i < p.len() && visible((#[trigger] p[i]).2, ctx) && p[i].0.len() > keys.len()
                    && p[i].0.take(keys.len() as int) == keys;
            assert(bs[i] == p[i]);
        }
        if has_longer_visible(bs, keys, ctx) {
            let i = choose|i: int|
                0 <= i < bs.len() && visible((#[trigger] bs[i]).2, ctx) && bs[i].0.len() > keys.len()
                    && bs[i].0.take(keys.len() as int) == keys;
            if i < p.len() {
                assert(p[i] == bs[i]);
            }
        }
    }
}

/// A key press on an idle engine (after `new` or `reset`): the last binding of the focused
/// context bound to just that chord wins; failing one, the last global binding bound to
/// it; failing both, the answer is `Pending` exactly when some visible binding is a
/// longer sequence starting with the chord, else `NoMatch`. Key repeat and timeout play
/// no part, and bindings of other contexts never match.
pub proof fn lemma_idle_key_press(
    bs: Seq<ResolvedView>,
    input: ChordView,
    is_repeat: bool,
    ctx: KeyContext,
    timed_out: bool,
)
    ensures
        ({
            let r = spec_process(bs, None, input, is_repeat, ctx, timed_out).1;
            let keys = seq![input];
            let no_context_exact = forall|j: int|
                0 <= j < bs.len() ==> !((#[trigger] bs[j]).2 == Some(ctx) && bs[j].0 == keys);
            let no_global_exact = forall|j: int|
                0 <= j < bs.len() ==> !((#[trigger] bs[j]).2 == None::<KeyContext> && bs[j].0 == keys);
            &&& forall|i: int| is_last_exact(bs, keys, Some(ctx), i) ==> r == KeyMatchResult::Matched(bs[i].1)
            &&& forall|i: int| no_context_exact && is_last_exact(bs, keys, None, i) ==> r
                == KeyMatchResult::Matched(bs[i].1)
            &&& no_context_exact && no_global_exact ==> (r == KeyMatchResult::Pending <==> has_longer_visible(
                bs,
                keys,
                ctx,
            ))
            &&& no_context_exact && no_global_exact && !has_longer_visible(bs, keys, ctx) ==> r
                == KeyMatchResult::NoMatch
        }),
{
    let keys = seq![input];
    lemma_scan_longer(bs, keys, ctx);
    lemma_scan_context_part(bs, keys, ctx);
    assert forall|i: int| is_last_exact(bs, keys, Some(ctx), i) implies spec_process(
        bs,
        None,
        input,
        is_repeat,
        ctx,
        timed_out,
    ).1 == KeyMatchResult::Matched(bs[i].1) by {
        lemma_scan_last_context(bs, keys, ctx, i);
    }
    let no_context_exact = forall|j: int|
        0 <= j < bs.len() ==> !((#[trigger] bs[j]).2 == Some(ctx) && bs[j].0 == keys);
    assert forall|i: int| no_context_exact && is_last_exact(bs, keys, None, i) implies spec_process(
        bs,
        None,
        input,
        is_repeat,
        ctx,
        timed_out,
    ).1 == KeyMatchResult::Matched(bs[i].1) by {
        lemma_scan_last_global(bs, keys, ctx, i);
    }
    if forall|j: int| 0 <= j < bs.len() ==> !((#[trigger] bs[j]).2 == None::<KeyContext> && bs[j].0 == keys) {
        lemma_scan_no_global(bs, keys, ctx);
    }
}

/// No binding visible from `ctx` is bound to exactly `keys`.
pub open spec fn no_visible_exact(bs: Seq<ResolvedView>, keys: Seq<ChordView>, ctx: KeyContext) -> bool {
    forall|j: int| 0 <= j < bs.len() && visible((#[trigger] bs[j]).2, ctx) ==> bs[j].0 != keys
}

proof fn lemma_find_nothing(bs: Seq<ResolvedView>, keys: Seq<ChordView>, ctx: KeyContext)
    requires
        no_visible_exact(bs, keys, ctx),
    ensures
        spec_find_match(bs, keys, ctx).0 is None,
        spec_find_match(bs, keys, ctx).1 == has_longer_visible(bs, keys, ctx),
{
    lemma_scan_context_part(bs, keys, ctx);
    if spec_scan(bs, keys, ctx).0 is Some {
        let j = choose|j: int| 0 <= j < bs.len() && (#[trigger] bs[j]).2 == Some(ctx) && bs[j].0 == keys;
        assert(visible(bs[j].2, ctx));
    }
    assert forall|j: int| 0 <= j < bs.len() implies !((#[trigger] bs[j]).2 == None::<KeyContext> && bs[j].0 == keys) by {
        if bs[j].2 == None::<KeyContext> {
            assert(visible(bs[j].2, ctx));
        }
    }
    lemma_scan_no_global(bs, keys, ctx);
    lemma_scan_longer(bs, keys, ctx);
}

/// A sequence that goes nowhere does not swallow its last key: when the typed keys and
/// the new key are bound to nothing visible and begin no longer visible binding, the
/// key press has the same result, and leaves the same state, as the same key pressed on
/// an idle engine. In particular, when that key alone begins a longer binding, it
/// starts a new pending sequence of just that key (`g` then `Ctrl+w` then `h` reaches
/// the `Ctrl+w h` binding).
pub proof fn lemma_failed_sequence_retries_key(
    bs: Seq<ResolvedView>,
    keys: Seq<ChordView>,
    input: ChordView,
    ctx: KeyContext,
)
    requires
        keys.len() > 0,
        no_visible_exact(bs, keys.push(input), ctx),
        !has_longer_visible(bs, keys.push(input), ctx),
    ensures
        spec_process(bs, Some(keys), input, false, ctx, false) == spec_process(bs, None, input, false, ctx, false),
        no_visible_exact(bs, seq![input], ctx) && has_longer_visible(bs, seq![input], ctx) ==> spec_process(
            bs,
            Some(keys),
            input,
            false,
            ctx,
            false,
        ) == (Some(seq![input]), KeyMatchResult::Pending),
        no_visible_exact(bs, seq![input], ctx) && !has_longer_visible(bs, seq![input], ctx) ==> spec_process(
            bs,
            Some(keys),
            input,
            false,
            ctx,
            false,
        ) == (None::<Seq<ChordView>>, KeyMatchResult::NoMatch),
{
    lemma_find_nothing(bs, keys.push(input), ctx);
    assert(keys.push(input).len() > 1);
    if no_visible_exact(bs, seq![input], ctx) {
        lemma_find_nothing(bs, seq![input], ctx);
    }
}

/// The context-specific part of a scan is the action of a context binding that matches
/// exactly, and is found whenever one exists.
proof fn lemma_scan_context_part(bs: Seq<ResolvedView>, keys: Seq<ChordView>, ctx: KeyContext)
    ensures
        (exists|i: int| 0 <= i < bs.len() && (#[trigger] bs[i]).2 == Some(ctx) && bs[i].0 == keys)
            ==> spec_scan(bs, keys, ctx).0 is Some,
        spec_scan(bs, keys, ctx).0 matches Some(a) ==> exists|j: int|
            0 <= j < bs.len() && (#[trigger] bs[j]).2 == Some(ctx) && bs[j].0 == keys && bs[j].1 == a,
    decreases bs.len(),
{
    if bs.len() > 0 {
        let p = bs.drop_last();
        lemma_scan_context_part(p, keys, ctx);
        if exists|i: int| 0 <= i < bs.len() && (#[trigger] bs[i]).2 == Some(ctx) && bs[i].0 == keys {
            let i = choose|i: int| 0 <= i < bs.len() && (#[trigger] bs[i]).2 == Some(ctx) && bs[i].0 == keys;
            if i < p.len() {
                assert(p[i] == bs[i]);
            }
        }
        if spec_scan(bs, keys, ctx).0 is Some {
            let a = spec_scan(bs, keys, ctx).0->Some_0;
            if spec_scan(p, keys, ctx).0 == Some(a) {
                let j = choose|j: int| 0 <= j < p.len() && (#[trigger] p[j]).2 == Some(ctx) && p[j].0 == keys && p[j].1 == a;
                assert(bs[j] == p[j]);
            } else {
                assert(bs[bs.len() - 1].1 == a);
            }
        }
    }
}

/// Whether two chord lists are equal.
pub fn chords_match(a: &[KeyChord], b: &[KeyChord]) -> (r: bool)
    ensures
        r == (chord_views(a@) == chord_views(b@)),
{
    if a.len() != b.len() {
        return false;
    }
    let mut i: usize = 0;
    while i < a.len()
        invariant
            a@.len() == b@.len(),
            i <= a@.len(),
            forall|j: int| 0 <= j < i ==> #[trigger] a@[j]@ == b@[j]@,
        decreases a@.len() - i,
    {
        if !chord_eq(&a[i], &b[i]) {
            assert(chord_views(a@)[i as int] != chord_views(b@)[i as int]);
            return false;
        }
        i += 1;
    }
    assert(chord_views(a@) =~= chord_views(b@));
    true
}

/// Whether `a` is longer than `b` and starts with `b`.
pub fn chords_start_with(a: &[KeyChord], b: &[KeyChord]) -> (r: bool)
    ensures
        r == (a@.len() > b@.len() && chord_views(a@).take(b@.len() as int) == chord_views(b@)),
{
    if a.len() <= b.len() {
        return false;
    }
    let mut i: usize = 0;
    while i < b.len()
        invariant
            a@.len() > b@.len(),
            i <= b@.len(),
            forall|j: int| 0 <= j < i ==> #[trigger] a@[j]@ == b@[j]@,
        decreases b@.len() - i,
    {
        if !chord_eq(&a[i], &b[i]) {
            assert(chord_views(a@).take(b@.len() as int)[i as int] != chord_views(b@)[i as int]);
            return false;
        }
        i += 1;
    }
    assert(chord_views(a@).take(b@.len() as int) =~= chord_views(b@));
    true
}

/// Copy of a chord list.
fn chords_clone(a: &[KeyChord]) -> (r: Vec<KeyChord>)
    ensures
        chord_views(r@) == chord_views(a@),
{
    let mut r: Vec<KeyChord> = Vec::new();
    let mut i: usize = 0;
    while i < a.len()
        invariant
            i <= a@.len(),
            chord_views(r@) == chord_views(a@).take(i as int),
        decreases a@.len() - i,
    {
        let ghost before = r@;
        let c = chord_clone(&a[i]);
        r.push(c);
        assert(chord_views(r@) =~= chord_views(before).push(c@));
        assert(chord_views(a@).take(i + 1) =~= chord_views(a@).take(i as int).push(a@[i as int]@));
        i += 1;
    }
    assert(chord_views(a@).take(a@.len() as int) =~= chord_views(a@));
    r
}

impl KeybindingEngine {
    /// The resolved bindings, as plain values.
    pub closed spec fn bindings_view(&self) -> Seq<ResolvedView> {
        resolved_views(self.bindings@)
    }

    /// The typed prefix of a multi-chord binding, if a sequence is in progress.
    pub closed spec fn pending_view(&self) -> Option<Seq<ChordView>> {
        match &self.state {
            KeySequenceState::Idle => None,
            KeySequenceState::Pending { keys, .. } => Some(chord_views(keys@)),
        }
    }

    /// How long, in milliseconds, a pending sequence waits for its next key.
    pub closed spec fn timeout_view(&self) -> u128 {
        self.sequence_timeout_ms
    }

    /// Create a new engine from a binding set; no sequence is in progress, and a
    /// pending sequence will wait one second for its next key.
    pub fn new(bindings: &BindingSet) -> (e: KeybindingEngine)
        ensures
            e.bindings_view() == spec_resolve_bindings(bindings),
            e.pending_view() is None,
            e.timeout_view() == DEFAULT_SEQUENCE_TIMEOUT_MS,
    {
        KeybindingEngine {
            bindings: resolve_bindings(bindings),
            state: KeySequenceState::Idle,
            sequence_timeout_ms: DEFAULT_SEQUENCE_TIMEOUT_MS,
        }
    }

    /// Find a matching binding for the given key sequence and context.
    ///
    /// Returns the exact match (a context-specific binding before a global one;
    /// bindings of other contexts are invisible) and whether some visible binding is
    /// longer than `keys` and starts with them.
    pub fn find_match(&self, keys: &[KeyChord], context: KeyContext) -> (r: (Option<Action>, bool))
        ensures
            r == spec_find_match(self.bindings_view(), chord_views(keys@), context),
    {
        let ghost bs = self.bindings_view();
        let ghost kv = chord_views(keys@);
        let mut ctx_match: Option<Action> = None;
        let mut global_match: Option<Action> = None;
        let mut has_prefix = false;
        let mut i: usize = 0;
        assert(bs.take(0) =~= Seq::<ResolvedView>::empty());
        while i < self.bindings.len()
            invariant
                bs == resolved_views(self.bindings@),
                kv == chord_views(keys@),
                i <= self.bindings@.len(),
                spec_scan(bs.take(i as int), kv, context) == (ctx_match, global_match, has_prefix),
            decreases self.bindings@.len() - i,
        {
            let b = &self.bindings[i];
            assert(bs.take(i + 1).drop_last() =~= bs.take(i as int));
            assert(bs.take(i + 1).last() == b@);
            let is_visible = match (b.context, context) {
                (None, _) => true,
                (Some(bc), pc) => bc == pc,
            };
            if is_visible {
                let chords = b.sequence.chords.as_slice();
                let exact = chords_match(chords, keys);
                let before_ctx = ctx_match;
                if exact {
                    if b.context.is_some() {
                        ctx_match = Some(b.action);
                    } else if before_ctx.is_none() {
                        global_match = Some(b.action);
                    }
                }
                if chords_start_with(chords, keys) {
                    has_prefix = true;
                }
            }
            i += 1;
        }
        assert(bs.take(self.bindings@.len() as int) =~= bs);
        let exact = match ctx_match {
            Some(a) => Some(a),
            None => global_match,
        };
        (exact, has_prefix)
    }

    /// One step with the timeout decision given: `timed_out` says whether the
    /// pending sequence has outlived the timeout.
    pub fn process_key_at(&mut self, input: &KeyChord, is_repeat: bool, context: KeyContext, timed_out: bool) -> (r: KeyMatchResult)
        ensures
            final(self).bindings_view() == old(self).bindings_view(),
            final(self).timeout_view() == old(self).timeout_view(),
            (final(self).pending_view(), r) == spec_process(
                old(self).bindings_view(),
                old(self).pending_view(),
                input@,
                is_repeat,
                context,
                timed_out,
            ),
    {
        let ghost bs = self.bindings_view();
        let mut taken = KeySequenceState::Idle;
        std::mem::swap(&mut taken, &mut self.state);
        let (pending, started) = match taken {
            KeySequenceState::Idle => (None, None),
            KeySequenceState::Pending { keys, started_at } => {
                if timed_out {
                    (None, None)
                } else {
                    (Some(keys), Some(started_at))
                }
            },
        };
        let current: Vec<KeyChord> = match pending {
            Some(keys) => {
                if is_repeat {
                    match started {
                        Some(t) => {
                            self.state = KeySequenceState::Pending { keys, started_at: t };
                        },
                        None => {
                            self.state = KeySequenceState::Pending { keys, started_at: instant_now() };
                        },
                    }
                    return KeyMatchResult::Pending;
                }
                let ghost before = keys@;
                let mut keys = keys;
                keys.push(chord_clone(input));
                assert(chord_views(keys@) =~= chord_views(before).push(input@));
                keys
            },
            None => {
                let mut v: Vec<KeyChord> = Vec::new();
                v.push(chord_clone(input));
                assert(chord_views(v@) =~= seq![input@]);
                v
            },
        };
        let (exact, prefix) = self.find_match(current.as_slice(), context);
        if let Some(action) = exact {
            return KeyMatchResult::Matched(action);
        }
        if prefix {
            let t = match started {
                Some(t) => t,
                None => instant_now(),
            };
            self.state = KeySequenceState::Pending { keys: current, started_at: t };
            return KeyMatchResult::Pending;
        }
        if current.len() > 1 {
            let mut single: Vec<KeyChord> = Vec::new();
            single.push(chord_clone(input));
            assert(chord_views(single@) =~= seq![input@]);
            let (exact1, prefix1) = self.find_match(single.as_slice(), context);
            if let Some(action) = exact1 {
                return KeyMatchResult::Matched(action);
            }
            if prefix1 {
                self.state = KeySequenceState::Pending { keys: single, started_at: instant_now() };
                return KeyMatchResult::Pending;
            }
        }
        KeyMatchResult::NoMatch
    }

    /// Process a key input and return the match result.
    ///
    /// `context` is the focused panel's key context. Single-chord bindings accept
    /// key repeats; during a sequence, repeats are ignored. Whether a pending sequence
    /// has timed out depends on the clock: the step is `spec_process` for one of the
    /// two answers, and with no sequence pending the answer does not matter.
    pub fn process_key(&mut self, input: &KeyChord, is_repeat: bool, context: KeyContext) -> (r: KeyMatchResult)
        ensures
            final(self).bindings_view() == old(self).bindings_view(),
            final(self).timeout_view() == old(self).timeout_view(),
            exists|timed_out: bool|
                (final(self).pending_view(), r) == #[trigger] spec_process(
                    old(self).bindings_view(),
                    old(self).pending_view(),
                    input@,
                    is_repeat,
                    context,
                    timed_out,
                ),
            old(self).pending_view() is None ==> (final(self).pending_view(), r) == spec_process(
                old(self).bindings_view(),
                old(self).pending_view(),
                input@,
                is_repeat,
                context,
                false,
            ),
    {
        let timed_out = match &self.state {
            KeySequenceState::Idle => false,
            KeySequenceState::Pending { started_at, .. } => millis_since(started_at) >= self.sequence_timeout_ms,
        };
        let ghost old_self_b = self.bindings_view();
        let ghost old_p = self.pending_view();
        let r = self.process_key_at(input, is_repeat, context, timed_out);
        assert((self.pending_view(), r) == spec_process(old_self_b, old_p, input@, is_repeat, context, timed_out));
        r
    }

    /// Reset the engine state (e.g., on focus change or cancel).
    pub fn reset(&mut self)
        ensures
            final(self).bindings_view() == old(self).bindings_view(),
            final(self).timeout_view() == old(self).timeout_view(),
            final(self).pending_view() is None,
    {
        self.state = KeySequenceState::Idle;
    }

    /// Returns true if a sequence is in progress.
    pub fn is_pending(&self) -> (r: bool)
        ensures
            r == self.pending_view() is Some,
    {
        match &self.state {
            KeySequenceState::Idle => false,
            KeySequenceState::Pending { .. } => true,
        }
    }
}

} // verus!
