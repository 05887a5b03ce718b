//! The event coalescer: merges rapid repeated notifications within a fixed
//! debounce window into one batch, so that a burst of notifications yields
//! at most one reload decision.
//!
//! The coalescer is a pure state machine over explicit clock readings, in
//! milliseconds. Idle, it holds no pending events. A relevant event starts
//! or extends accumulation and re-arms the deadline one window ahead; an
//! irrelevant one changes nothing. A poll at or after the deadline flushes
//! the whole batch and returns the machine to idle; an earlier poll flushes
//! nothing.

use vstd::prelude::*;
use crate::events::{RawEvent, spec_relevant, relevant};

verus! {

/// The debounce window, in milliseconds.
pub const DEBOUNCE_WINDOW_MS: u64 = 100;

/// The coalescer's abstract state: the accumulated batch, in arrival order,
/// and the instant the current window elapses. An empty batch is the idle
/// state.
#[verifier::ext_equal]
pub struct CoalescerModel {
    pub pending: Seq<RawEvent>,
    pub deadline: int,
}

/// The abstract effect of one incoming notification.
pub open spec fn spec_on_event(s: CoalescerModel, now_ms: u64, event: RawEvent) -> CoalescerModel {
    if spec_relevant(event.kind) {
        CoalescerModel { pending: s.pending.push(event), deadline: now_ms + DEBOUNCE_WINDOW_MS }
    } else {
        s
    }
}

/// Whether a poll at the given instant flushes the batch: something is
/// pending and the window has elapsed.
pub open spec fn spec_flushes(s: CoalescerModel, now_ms: u64) -> bool {
    s.pending.len() > 0 && now_ms >= s.deadline
}

/// The abstract effect of one poll.
pub open spec fn spec_after_poll(s: CoalescerModel, now_ms: u64) -> CoalescerModel {
    if spec_flushes(s, now_ms) {
        CoalescerModel { pending: Seq::empty(), deadline: s.deadline }
    } else {
        s
    }
}

/// Merges rapid repeated notifications into one batch per debounce window.
pub struct EventCoalescer {
    pending: Vec<RawEvent>,
    deadline_ms: u64,
}

impl View for EventCoalescer {
    type V = CoalescerModel;

    closed spec fn view(&self) -> CoalescerModel {
        CoalescerModel { pending: self.pending@, deadline: self.deadline_ms as int }
    }
}

impl EventCoalescer {
    /// A new, idle coalescer.
    pub fn new() -> (r: EventCoalescer)
        ensures
            r@.pending == Seq::<RawEvent>::empty(),
            r@.deadline == 0,
    {
        EventCoalescer { pending: Vec::new(), deadline_ms: 0 }
    }

    /// Takes one notification in: a relevant one joins the batch and re-arms
    /// the deadline one window from now; an irrelevant one is observed and
    /// dropped.
    pub fn on_event(&mut self, now_ms: u64, event: RawEvent)
        requires
            now_ms <= u64::MAX - DEBOUNCE_WINDOW_MS,
        ensures
            final(self)@ == spec_on_event(old(self)@, now_ms, event),
    {
        if relevant(event.kind) {
            self.pending.push(event);
            self.deadline_ms = now_ms + DEBOUNCE_WINDOW_MS;
        }
        proof {
            assert(self@ =~= spec_on_event(old(self)@, now_ms, event));
        }
    }

    /// Polls the clock: at or after the deadline the whole accumulated batch
    /// is flushed, in arrival order, and the coalescer is idle again; before
    /// the deadline, or while idle, nothing comes out.
    pub fn poll(&mut self, now_ms: u64) -> (r: Option<Vec<RawEvent>>)
        ensures
            final(self)@ == spec_after_poll(old(self)@, now_ms),
            r is Some <==> spec_flushes(old(self)@, now_ms),
            r matches Some(batch) ==> batch@ == old(self)@.pending,
    {
        if self.pending.len() > 0 && now_ms >= self.deadline_ms {
            let mut batch: Vec<RawEvent> = Vec::new();
            core::mem::swap(&mut batch, &mut self.pending);
            proof {
                assert(self@ =~= spec_after_poll(old(self)@, now_ms));
            }
            Some(batch)
        } else {
            None
        }
    }
}

/// An instant paired with the notification that arrived then.
pub struct Arrival {
    pub at_ms: u64,
    pub event: RawEvent,
}

/// The abstract state after a run of notifications, each taken in at its
/// arrival instant.
pub open spec fn run_events(s: CoalescerModel, arrivals: Seq<Arrival>) -> CoalescerModel
    decreases arrivals.len(),
{
    if arrivals.len() == 0 {
        s
    } else {
        run_events(spec_on_event(s, arrivals[0].at_ms, arrivals[0].event), arrivals.drop_first())
    }
}

/// A run of relevant notifications accumulates every one of them, in arrival
/// order, behind whatever was already pending, and leaves the deadline one
/// window after the last arrival.
pub proof fn lemma_run_accumulates(s: CoalescerModel, arrivals: Seq<Arrival>)
    requires
        forall|i: int| 0 <= i < arrivals.len() ==> spec_relevant(#[trigger] arrivals[i].event.kind),
    ensures
        run_events(s, arrivals).pending == s.pending + arrivals.map_values(|a: Arrival| a.event),
        arrivals.len() > 0 ==> run_events(s, arrivals).deadline == arrivals.last().at_ms
            + DEBOUNCE_WINDOW_MS,
        arrivals.len() == 0 ==> run_events(s, arrivals) == s,
    decreases arrivals.len(),
{
    if arrivals.len() == 0 {
        assert(s.pending + arrivals.map_values(|a: Arrival| a.event) =~= s.pending);
    } else {
        let s1 = spec_on_event(s, arrivals[0].at_ms, arrivals[0].event);
        let rest = arrivals.drop_first();
        lemma_run_accumulates(s1, rest);
        assert(s1.pending + rest.map_values(|a: Arrival| a.event) =~= s.pending
            + arrivals.map_values(|a: Arrival| a.event));
        if rest.len() > 0 {
            assert(rest.last() == arrivals.last());
        }
    }
}

/// Debounce merging: starting idle, a burst of relevant notifications, each
/// arriving within one window of the one before, is merged into a single
/// batch. No poll during accumulation, before the window then armed has
/// elapsed, flushes anything; the first poll at or after the last deadline
/// flushes the whole burst, in arrival order; and once it has, a later poll
/// flushes nothing more — one batch, at most one reload trigger.
pub proof fn lemma_debounce_merging(
    s0: CoalescerModel,
    arrivals: Seq<Arrival>,
    t_flush: u64,
    t_later: u64,
)
    requires
        s0.pending.len() == 0,
        arrivals.len() > 0,
        forall|i: int| 0 <= i < arrivals.len() ==> spec_relevant(#[trigger] arrivals[i].event.kind),
        forall|i: int| 0 < i < arrivals.len() ==> #[trigger] arrivals[i].at_ms <= arrivals[
            i - 1
        ].at_ms + DEBOUNCE_WINDOW_MS,
        t_flush >= arrivals.last().at_ms + DEBOUNCE_WINDOW_MS,
    ensures
        ({
            let accumulated = run_events(s0, arrivals);
            let flushed = spec_after_poll(accumulated, t_flush);
            &&& accumulated.pending == arrivals.map_values(|a: Arrival| a.event)
            &&& spec_flushes(accumulated, t_flush)
            &&& flushed.pending == Seq::<RawEvent>::empty()
            &&& !spec_flushes(flushed, t_later)
        }),
        forall|k: int, t: u64|
            1 <= k <= arrivals.len() && t < arrivals[k - 1].at_ms + DEBOUNCE_WINDOW_MS
                ==> !(#[trigger] spec_flushes(run_events(s0, arrivals.take(k)), t)),
{
    lemma_run_accumulates(s0, arrivals);
    assert(s0.pending + arrivals.map_values(|a: Arrival| a.event) =~= arrivals.map_values(
        |a: Arrival| a.event,
    ));
    assert forall|k: int, t: u64|
        1 <= k <= arrivals.len() && t < arrivals[k - 1].at_ms + DEBOUNCE_WINDOW_MS implies !(
    #[trigger] spec_flushes(run_events(s0, arrivals.take(k)), t)) by {
        let prefix = arrivals.take(k);
        lemma_run_accumulates(s0, prefix);
        assert(prefix.last() == arrivals[k - 1]);
    }
}

} // verus!
