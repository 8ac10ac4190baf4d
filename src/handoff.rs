//! The hand-off between the keyboard interrupt and the keyboard task: a
//! single-slot wake primitive, and the scancode source that pairs it with
//! the bounded queue through the register-then-recheck protocol.
use crate::queue::{PushOutcome, ScancodeQueue, SCANCODE_QUEUE_CAPACITY};
use vstd::prelude::*;

verus! {

/// Records the interest of at most one waiting task. Registering replaces
/// whatever was registered before: there is a single consumer, so only the
/// most recent registration matters.
pub struct WakeSlot {
    waiter: Option<u64>,
}

impl WakeSlot {
    /// The task that asked to be resumed, if any.
    pub closed spec fn waiter(&self) -> Option<u64> {
        self.waiter
    }

    pub fn new() -> (s: WakeSlot)
        ensures
            s.waiter() == None::<u64>,
    {
        WakeSlot { waiter: None }
    }

    /// Records `task` as the one to resume, replacing any earlier interest.
    pub fn register(&mut self, task: u64)
        ensures
            final(self).waiter() == Some(task),
    {
        self.waiter = Some(task);
    }

    /// Withdraws the recorded interest and hands it back.
    pub fn take(&mut self) -> (r: Option<u64>)
        ensures
            r == old(self).waiter(),
            final(self).waiter() == None::<u64>,
    {
        let r = self.waiter;
        self.waiter = None;
        r
    }

    /// Signals the slot: the recorded task, if any, is handed back to be
    /// made runnable, and the slot is left empty. Never blocks.
    pub fn signal(&mut self) -> (r: Option<u64>)
        ensures
            r == old(self).waiter(),
            final(self).waiter() == None::<u64>,
    {
        self.take()
    }
}

/// What a poll of the scancode source produced.
#[derive(Clone, Copy, Debug, PartialEq, Eq, Structural)]
pub enum ScancodePoll {
    Ready(u8),
    Pending,
}

/// What became of a byte delivered by the interrupt handler.
#[derive(Clone, Copy, Debug, PartialEq, Eq, Structural)]
pub enum DeliveryReport {
    /// The byte was queued; `woken` is the task that the signal resumes.
    Queued { woken: Option<u64> },
    /// The queue was full and the byte was dropped; this deserves a warning.
    Dropped,
}

/// The state of the hand-off: the bytes waiting, oldest first, and the task
/// registered for a wake-up.
pub ghost struct HandoffState {
    pub bytes: Seq<u8>,
    pub waiter: Option<u64>,
}

/// The state after the interrupt handler delivers `b`.
pub open spec fn delivered(s: HandoffState, b: u8) -> HandoffState {
    if s.bytes.len() < SCANCODE_QUEUE_CAPACITY {
        HandoffState { bytes: s.bytes.push(b), waiter: None }
    } else {
        s
    }
}

/// The report of the interrupt handler delivering `b`.
pub open spec fn delivery_report(s: HandoffState, b: u8) -> DeliveryReport {
    if s.bytes.len() < SCANCODE_QUEUE_CAPACITY {
        DeliveryReport::Queued { woken: s.waiter }
    } else {
        DeliveryReport::Dropped
    }
}

/// The state after `task` registers its interest.
pub open spec fn registered(s: HandoffState, task: u64) -> HandoffState {
    HandoffState { bytes: s.bytes, waiter: Some(task) }
}

/// The result of one attempt to take a byte without registering.
pub open spec fn attempt(s: HandoffState) -> (Option<u8>, HandoffState) {
    if s.bytes.len() > 0 {
        (Some(s.bytes[0]), HandoffState { bytes: s.bytes.drop_first(), waiter: s.waiter })
    } else {
        (None, s)
    }
}

/// The result of the attempt made after registering: a byte found there
/// also withdraws the registration.
pub open spec fn rechecked(s: HandoffState) -> (ScancodePoll, HandoffState) {
    if s.bytes.len() > 0 {
        (ScancodePoll::Ready(s.bytes[0]), HandoffState { bytes: s.bytes.drop_first(), waiter: None })
    } else {
        (ScancodePoll::Pending, s)
    }
}

/// A whole poll by `task`: try, else register and try again.
pub open spec fn polled(s: HandoffState, task: u64) -> (ScancodePoll, HandoffState) {
    if s.bytes.len() > 0 {
        (ScancodePoll::Ready(s.bytes[0]), attempt(s).1)
    } else {
        rechecked(registered(s, task))
    }
}

/// The source of raw scancodes for the keyboard task. It owns the bounded
/// queue that interrupts fill and the slot in which the consuming task
/// registers to be resumed.
pub struct ScancodeStream {
    queue: ScancodeQueue,
    interest: WakeSlot,
}

impl View for ScancodeStream {
    type V = HandoffState;

    closed spec fn view(&self) -> HandoffState {
        HandoffState { bytes: self.queue@, waiter: self.interest.waiter() }
    }
}

impl ScancodeStream {
    pub closed spec fn wf(&self) -> bool {
        self.queue.wf()
    }

    pub fn new() -> (s: ScancodeStream)
        ensures
            s.wf(),
            s@ == (HandoffState { bytes: Seq::empty(), waiter: None }),
    {
        ScancodeStream { queue: ScancodeQueue::new(), interest: WakeSlot::new() }
    }

    /// Called once per scancode byte received by the interrupt handler:
    /// queues the byte and signals the wake slot, or drops the byte when the
    /// queue is full. Never blocks and never allocates.
    pub fn add_scancode(&mut self, scancode: u8) -> (r: DeliveryReport)
        requires
            old(self).wf(),
        ensures
            final(self).wf(),
            final(self)@ == delivered(old(self)@, scancode),
            r == delivery_report(old(self)@, scancode),
    {
        match self.queue.push(scancode) {
            PushOutcome::Queued => {
                let woken = self.interest.signal();
                DeliveryReport::Queued { woken }
            },
            PushOutcome::DroppedFull => DeliveryReport::Dropped,
        }
    }

    /// The fast path: takes the oldest byte if one waits.
    pub fn try_next(&mut self) -> (r: Option<u8>)
        requires
            old(self).wf(),
        ensures
            final(self).wf(),
            (r, final(self)@) == attempt(old(self)@),
    {
        self.queue.try_pop()
    }

    /// Registers `task` to be resumed by the next signal.
    pub fn register_interest(&mut self, task: u64)
        requires
            old(self).wf(),
        ensures
            final(self).wf(),
            final(self)@ == registered(old(self)@, task),
    {
        self.interest.register(task);
    }

    /// The attempt made after registering; when a byte is found the
    /// registration is withdrawn, as the task goes on running.
    pub fn recheck(&mut self) -> (r: ScancodePoll)
        requires
            old(self).wf(),
        ensures
            final(self).wf(),
            (r, final(self)@) == rechecked(old(self)@),
    {
        match self.queue.try_pop() {
            Some(scancode) => {
                self.interest.take();
                ScancodePoll::Ready(scancode)
            },
            None => ScancodePoll::Pending,
        }
    }

    /// Produces the next scancode for `task`, or registers `task` and
    /// reports that it must wait. The queue is checked again after
    /// registering, so a byte that arrived in between is not missed.
    pub fn poll_next(&mut self, task: u64) -> (r: ScancodePoll)
        requires
            old(self).wf(),
        ensures
            final(self).wf(),
            (r, final(self)@) == polled(old(self)@, task),
    {
        if let Some(scancode) = self.try_next() {
            return ScancodePoll::Ready(scancode);
        }
        self.register_interest(task);
        self.recheck()
    }
}

/// No wake-up is missed. Once a poll by `task` has found the queue empty,
/// a byte delivered before `task` registers, or between the registration
/// and the second attempt, is returned by that attempt; and a byte
/// delivered after the poll reported that it must wait signals `task`, and
/// the next poll returns the byte.
pub proof fn lemma_no_missed_wakeup(s: HandoffState, task: u64, b: u8)
    requires
        s.bytes.len() == 0,
    ensures
        rechecked(registered(delivered(s, b), task)).0 == ScancodePoll::Ready(b),
        rechecked(delivered(registered(s, task), b)).0 == ScancodePoll::Ready(b),
        polled(s, task).0 == ScancodePoll::Pending,
        delivery_report(polled(s, task).1, b) == (DeliveryReport::Queued { woken: Some(task) }),
        polled(delivered(polled(s, task).1, b), task).0 == ScancodePoll::Ready(b),
{
}

} // verus!
