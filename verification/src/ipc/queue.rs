//! The queue of open events waiting for the main thread, and the main thread's
//! handling of a shutdown request.
use vstd::prelude::*;

use crate::ipc::protocol::OpenEvent;

verus! {

/// Open events in arrival order, waiting to be handled on the main thread.
pub struct EventQueue {
    events: Vec<OpenEvent>,
}

impl View for EventQueue {
    type V = Seq<OpenEvent>;

    closed spec fn view(&self) -> Seq<OpenEvent> {
        self.events@
    }
}

impl EventQueue {
    /// An empty queue.
    pub fn new() -> (q: EventQueue)
        ensures
            q@.len() == 0,
    {
        EventQueue { events: Vec::new() }
    }

    /// Add an event at the back of the queue.
    pub fn push_event(&mut self, event: OpenEvent)
        ensures
            final(self)@ == old(self)@.push(event),
    {
        self.events.push(event);
    }

    /// Take the oldest event, if any.
    pub fn try_pop_first_event(&mut self) -> (r: Option<OpenEvent>)
        ensures
            old(self)@.len() == 0 ==> r is None && final(self)@ == old(self)@,
            old(self)@.len() > 0 ==> r == Some(old(self)@[0]) && final(self)@ == old(self)@.drop_first(),
    {
        if self.events.len() == 0 {
            None
        } else {
            let e = self.events.remove(0);
            assert(self.events@ =~= old(self)@.drop_first());
            Some(e)
        }
    }

    /// Take all events, oldest first, leaving the queue empty.
    pub fn drain_events(&mut self) -> (r: Vec<OpenEvent>)
        ensures
            r@ == old(self)@,
            final(self)@.len() == 0,
    {
        let mut taken: Vec<OpenEvent> = Vec::new();
        taken.append(&mut self.events);
        taken
    }

    /// The events the main thread handles now: all of them, oldest first, when a main
    /// window exists to handle them; none while there is no window, so that they wait in
    /// the queue for a later wake-up.
    pub fn take_for_main_thread(&mut self, has_main_window: bool) -> (r: Vec<OpenEvent>)
        ensures
            has_main_window ==> r@ == old(self)@ && final(self)@.len() == 0,
            !has_main_window ==> r@.len() == 0 && final(self)@ == old(self)@,
    {
        if has_main_window {
            self.drain_events()
        } else {
            Vec::new()
        }
    }
}

/// What the main thread does when it wakes up.
#[derive(Debug, Clone, Copy, PartialEq, Eq, Structural)]
pub enum MainThreadStep {
    /// Handle the queued open events, then look at the shutdown flag again.
    ProcessEvents,
    /// Skip the events and start the graceful shutdown.
    StartShutdown,
    /// A shutdown is already under way: nothing more to do.
    Nothing,
}

/// The first step on waking: events are handled only while no shutdown is requested,
/// and a shutdown is started only once.
pub fn main_thread_step(shutdown_requested: bool, shutdown_started: bool) -> (s: MainThreadStep)
    ensures
        !shutdown_requested ==> s == MainThreadStep::ProcessEvents,
        shutdown_requested && !shutdown_started ==> s == MainThreadStep::StartShutdown,
        shutdown_requested && shutdown_started ==> s == MainThreadStep::Nothing,
{
    if !shutdown_requested {
        MainThreadStep::ProcessEvents
    } else if shutdown_started {
        MainThreadStep::Nothing
    } else {
        MainThreadStep::StartShutdown
    }
}

/// What a look at the shutdown flags decides: whether to begin the graceful shutdown
/// now, and the value of the started flag afterwards.
#[derive(Debug, Clone, Copy, PartialEq, Eq, Structural)]
pub struct ShutdownStep {
    pub begin: bool,
    pub started: bool,
}

/// A shutdown begins when one is requested and none has started; once requested, the
/// started flag is set.
pub open spec fn spec_shutdown_step(requested: bool, started: bool) -> ShutdownStep {
    if !requested {
        ShutdownStep { begin: false, started }
    } else {
        ShutdownStep { begin: !started, started: true }
    }
}

/// The shutdown decision for the flags as they are read now.
pub fn shutdown_step(requested: bool, started: bool) -> (s: ShutdownStep)
    ensures
        s == spec_shutdown_step(requested, started),
{
    if !requested {
        ShutdownStep { begin: false, started }
    } else {
        ShutdownStep { begin: !started, started: true }
    }
}

/// How many times the shutdown begins over wake-ups that read the requested flag as
/// `requests` in turn, from the started flag `started`.
pub open spec fn shutdown_begins(requests: Seq<bool>, started: bool) -> nat
    decreases requests.len(),
{
    if requests.len() == 0 {
        0
    } else {
        let s = spec_shutdown_step(requests[0], started);
        (if s.begin { 1nat } else { 0nat }) + shutdown_begins(requests.drop_first(), s.started)
    }
}

/// Over any number of wake-ups the graceful shutdown begins at most once, and never
/// once it has started.
pub proof fn lemma_shutdown_at_most_once(requests: Seq<bool>, started: bool)
    ensures
        shutdown_begins(requests, started) <= 1,
        started ==> shutdown_begins(requests, started) == 0,
    decreases requests.len(),
{
    if requests.len() > 0 {
        let s = spec_shutdown_step(requests[0], started);
        lemma_shutdown_at_most_once(requests.drop_first(), s.started);
    }
}

/// The exit status when the process ends itself after a signal: 128 plus the signal
/// number, or 0 when no signal was recorded.
pub fn shutdown_exit_code(signal: i32) -> (code: i32)
    requires
        signal <= i32::MAX - 128,
    ensures
        signal > 0 ==> code == 128 + signal,
        signal <= 0 ==> code == 0,
{
    if signal > 0 {
        128 + signal
    } else {
        0
    }
}

} // verus!
