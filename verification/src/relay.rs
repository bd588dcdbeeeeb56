//! Event relay: buffers outbound notifications until the consumer is ready.
//!
//! While the consumer is not ready, events are held in a bounded FIFO queue;
//! overflow evicts the oldest entries. The first ready signal drains the
//! queue once, in insertion order; afterwards every event is delivered
//! immediately. Readiness is monotonic: once set, never unset. The relay
//! decides; the host performs the actual delivery of the events it returns.

use vstd::prelude::*;

verus! {

/// Queue capacity: beyond this many pending events the oldest are dropped.
pub const MAX_PENDING_EVENTS: usize = 1000;

/// An outbound notification: a name and a JSON payload, serialized.
#[derive(Debug, Clone)]
pub struct PendingEvent {
    pub name: String,
    pub payload: String,
}

/// Readiness flag and bounded queue of not-yet-deliverable events.
#[derive(Debug, Clone)]
pub struct EventRelay {
    pub ready: bool,
    pub pending: Vec<PendingEvent>,
}

/// What `emit` asks the host to do with the event.
pub enum EmitDisposition {
    /// Deliver the event to the sink now.
    Deliver(PendingEvent),
    /// The event was queued; nothing to deliver.
    Queued,
}

/// The queue after enqueueing `e` while not ready: `e` goes to the back; a
/// full queue first drops its oldest entry.
pub open spec fn spec_enqueue(pending: Seq<PendingEvent>, e: PendingEvent) -> Seq<PendingEvent> {
    if pending.len() < MAX_PENDING_EVENTS {
        pending.push(e)
    } else {
        pending.skip(1).push(e)
    }
}

/// The queue after enqueueing, while not ready, each event of `events` in
/// order.
pub open spec fn spec_enqueue_all(pending: Seq<PendingEvent>, events: Seq<PendingEvent>) -> Seq<
    PendingEvent,
>
    decreases events.len(),
{
    if events.len() == 0 {
        pending
    } else {
        spec_enqueue(spec_enqueue_all(pending, events.drop_last()), events.last())
    }
}

impl EventRelay {
    /// The relay's invariant: the queue never exceeds its capacity, and a
    /// ready relay holds no pending events (the ready signal drained them).
    pub open spec fn wf(self) -> bool {
        &&& self.pending@.len() <= MAX_PENDING_EVENTS
        &&& self.ready ==> self.pending@.len() == 0
    }

    /// A fresh relay: not ready, nothing pending.
    pub fn new() -> (r: EventRelay)
        ensures
            !r.ready,
            r.pending@ == Seq::<PendingEvent>::empty(),
            r.wf(),
    {
        EventRelay { ready: false, pending: Vec::new() }
    }

    /// Whether the consumer has signalled readiness.
    pub fn is_ready(&self) -> (b: bool)
        ensures
            b == self.ready,
    {
        self.ready
    }

    /// Emit an event. If the relay is ready, the queue is bypassed entirely
    /// and the event is handed back for immediate delivery. Otherwise the
    /// event is enqueued; if the queue is full, the oldest entry is dropped
    /// to make room.
    pub fn emit(&mut self, name: String, payload: String) -> (d: EmitDisposition)
        requires
            old(self).wf(),
        ensures
            final(self).wf(),
            final(self).ready == old(self).ready,
            old(self).ready ==> {
                &&& final(self).pending@ == old(self).pending@
                &&& (d matches EmitDisposition::Deliver(e) && e.name == name && e.payload
                    == payload)
            },
            !old(self).ready ==> {
                &&& final(self).pending@ == spec_enqueue(
                    old(self).pending@,
                    PendingEvent { name, payload },
                )
                &&& (d matches EmitDisposition::Queued)
            },
    {
        let event = PendingEvent { name, payload };
        if self.ready {
            return EmitDisposition::Deliver(event);
        }
        if self.pending.len() >= MAX_PENDING_EVENTS {
            self.pending.remove(0);
            proof {
                assert(self.pending@ =~= old(self).pending@.skip(1));
            }
        }
        self.pending.push(event);
        EmitDisposition::Queued
    }

    /// Mark the consumer ready. The first call drains the queue and returns
    /// the pending events in insertion order, for the host to deliver; later
    /// calls return nothing. Readiness never reverts.
    pub fn set_ready(&mut self) -> (flushed: Vec<PendingEvent>)
        requires
            old(self).wf(),
        ensures
            final(self).wf(),
            final(self).ready,
            final(self).pending@.len() == 0,
            old(self).ready ==> flushed@ == Seq::<PendingEvent>::empty(),
            !old(self).ready ==> flushed@ == old(self).pending@,
    {
        if self.ready {
            return Vec::new();
        }
        self.ready = true;
        let mut flushed: Vec<PendingEvent> = Vec::new();
        core::mem::swap(&mut self.pending, &mut flushed);
        flushed
    }
}

/// Events emitted before the ready signal are delivered after it in the
/// exact order emitted: while the relay is not ready, `emit` enqueues by
/// `spec_enqueue`, so a batch of events that fits in the queue leaves the
/// queue holding the prior contents followed by the batch, in order; the
/// first ready signal then flushes exactly that sequence (see `set_ready`),
/// and events emitted after it bypass the queue (see `emit`).
pub proof fn lemma_events_flushed_in_emission_order(
    pending: Seq<PendingEvent>,
    events: Seq<PendingEvent>,
)
    requires
        pending.len() + events.len() <= MAX_PENDING_EVENTS,
    ensures
        spec_enqueue_all(pending, events) == pending + events,
    decreases events.len(),
{
    if events.len() == 0 {
        assert(spec_enqueue_all(pending, events) =~= pending + events);
    } else {
        lemma_events_flushed_in_emission_order(pending, events.drop_last());
        assert(spec_enqueue_all(pending, events) =~= pending + events);
    }
}

} // verus!
