//! The bounded scancode queue that interrupt handlers fill and the keyboard
//! task drains, held in a `crossbeam_queue::ArrayQueue`.
use crossbeam_queue::ArrayQueue;
use vstd::prelude::*;

verus! {

#[verifier::external_type_specification]
#[verifier::external_body]
#[verifier::reject_recursive_types(T)]
pub struct ExArrayQueue<T>(ArrayQueue<T>);

/// The bytes held by an `ArrayQueue<u8>`, oldest first.
pub uninterp spec fn array_queue_items(q: ArrayQueue<u8>) -> Seq<u8>;

/// The capacity an `ArrayQueue<u8>` was created with.
pub uninterp spec fn array_queue_capacity(q: ArrayQueue<u8>) -> nat;

/// Relies on `ArrayQueue::new`: an empty queue that holds at most `cap`
/// items; it panics when `cap` is zero.
#[verifier::external_body]
fn array_queue_new(cap: usize) -> (q: ArrayQueue<u8>)
    requires
        cap > 0,
    ensures
        array_queue_items(q) == Seq::<u8>::empty(),
        array_queue_capacity(q) == cap,
{
    ArrayQueue::new(cap)
}

/// Relies on `ArrayQueue::push`: with exclusive access, a queue holding
/// fewer than `capacity` items appends the value at the back and returns
/// `Ok`; a full queue is left as it was and the value comes back in `Err`.
#[verifier::external_body]
fn array_queue_push(q: &mut ArrayQueue<u8>, value: u8) -> (r: Result<(), u8>)
    ensures
        array_queue_capacity(*final(q)) == array_queue_capacity(*old(q)),
        array_queue_items(*old(q)).len() < array_queue_capacity(*old(q)) ==> r is Ok
            && array_queue_items(*final(q)) == array_queue_items(*old(q)).push(value),
        array_queue_items(*old(q)).len() >= array_queue_capacity(*old(q)) ==> r is Err
            && array_queue_items(*final(q)) == array_queue_items(*old(q)),
{
    q.push(value)
}

/// Relies on `ArrayQueue::pop`: with exclusive access, it removes and
/// returns the oldest item, or returns `None` when the queue is empty.
#[verifier::external_body]
fn array_queue_pop(q: &mut ArrayQueue<u8>) -> (r: Option<u8>)
    ensures
        array_queue_capacity(*final(q)) == array_queue_capacity(*old(q)),
        array_queue_items(*old(q)).len() == 0 ==> r == None::<u8>
            && array_queue_items(*final(q)) == array_queue_items(*old(q)),
        array_queue_items(*old(q)).len() > 0 ==> r == Some(array_queue_items(*old(q))[0])
            && array_queue_items(*final(q)) == array_queue_items(*old(q)).drop_first(),
{
    q.pop()
}

/// How many scancodes wait at most between two drains.
pub const SCANCODE_QUEUE_CAPACITY: usize = 100;

/// The queue after offering it one byte: appended when there is room,
/// dropped when the queue is full.
pub open spec fn pushed(q: Seq<u8>, b: u8) -> Seq<u8> {
    if q.len() < SCANCODE_QUEUE_CAPACITY {
        q.push(b)
    } else {
        q
    }
}

/// The queue after offering it each byte of `bs` in turn.
pub open spec fn pushed_all(q: Seq<u8>, bs: Seq<u8>) -> Seq<u8>
    decreases bs.len(),
{
    if bs.len() == 0 {
        q
    } else {
        pushed_all(pushed(q, bs[0]), bs.drop_first())
    }
}

/// What a consumer that pops until the queue is empty observes.
pub open spec fn popped_all(q: Seq<u8>) -> Seq<u8>
    decreases q.len(),
{
    if q.len() == 0 {
        Seq::empty()
    } else {
        seq![q[0]].add(popped_all(q.drop_first()))
    }
}

/// Bytes offered while there is room are appended in order.
pub proof fn lemma_pushed_all_appends(q: Seq<u8>, bs: Seq<u8>)
    requires
        q.len() + bs.len() <= SCANCODE_QUEUE_CAPACITY,
    ensures
        pushed_all(q, bs) == q + bs,
    decreases bs.len(),
{
    if bs.len() > 0 {
        lemma_pushed_all_appends(q.push(bs[0]), bs.drop_first());
        assert(q.push(bs[0]) + bs.drop_first() =~= q + bs);
    } else {
        assert(q + bs =~= q);
    }
}

/// Draining a queue yields its bytes oldest first.
pub proof fn lemma_popped_all_in_order(q: Seq<u8>)
    ensures
        popped_all(q) == q,
    decreases q.len(),
{
    if q.len() > 0 {
        lemma_popped_all_in_order(q.drop_first());
        assert(seq![q[0]] + q.drop_first() =~= q);
    } else {
        assert(popped_all(q) =~= q);
    }
}

/// First in, first out: when no more bytes are pushed between two drains
/// than the queue holds, the consumer sees exactly the pushed bytes, in
/// the order they were pushed.
pub proof fn lemma_fifo(bs: Seq<u8>)
    requires
        bs.len() <= SCANCODE_QUEUE_CAPACITY,
    ensures
        popped_all(pushed_all(Seq::empty(), bs)) == bs,
{
    lemma_pushed_all_appends(Seq::empty(), bs);
    assert(Seq::<u8>::empty() + bs =~= bs);
    lemma_popped_all_in_order(bs);
}

/// Offering bytes never grows the queue past its capacity, and the bytes
/// already waiting keep their place at the front, in their order, however
/// many bytes are dropped.
pub proof fn lemma_overflow_keeps_order(q: Seq<u8>, bs: Seq<u8>)
    requires
        q.len() <= SCANCODE_QUEUE_CAPACITY,
    ensures
        pushed_all(q, bs).len() <= SCANCODE_QUEUE_CAPACITY,
        pushed_all(q, bs).len() >= q.len(),
        pushed_all(q, bs).subrange(0, q.len() as int) == q,
    decreases bs.len(),
{
    if bs.len() > 0 {
        let q1 = pushed(q, bs[0]);
        lemma_overflow_keeps_order(q1, bs.drop_first());
        assert(q1.subrange(0, q.len() as int) =~= q);
        assert(pushed_all(q, bs).subrange(0, q.len() as int) =~= pushed_all(q1, bs.drop_first()).subrange(0, q1.len() as int).subrange(0, q.len() as int));
    } else {
        assert(q.subrange(0, q.len() as int) =~= q);
    }
}

/// Whether a byte offered to the queue was kept or dropped.
#[derive(Clone, Copy, Debug, PartialEq, Eq, Structural)]
pub enum PushOutcome {
    Queued,
    DroppedFull,
}

/// Bounded first-in first-out byte queue between interrupt context and the
/// keyboard task. Offering a byte never blocks and never allocates: when
/// the queue is full the byte is dropped.
pub struct ScancodeQueue {
    inner: ArrayQueue<u8>,
}

impl View for ScancodeQueue {
    type V = Seq<u8>;

    closed spec fn view(&self) -> Seq<u8> {
        array_queue_items(self.inner)
    }
}

impl ScancodeQueue {
    /// A well-formed queue never holds more than its capacity.
    pub proof fn lemma_bounded(&self)
        requires
            self.wf(),
        ensures
            self@.len() <= SCANCODE_QUEUE_CAPACITY,
    {
    }

    pub closed spec fn wf(&self) -> bool {
        &&& array_queue_capacity(self.inner) == SCANCODE_QUEUE_CAPACITY
        &&& self@.len() <= SCANCODE_QUEUE_CAPACITY
    }

    pub fn new() -> (q: ScancodeQueue)
        ensures
            q.wf(),
            q@ == Seq::<u8>::empty(),
    {
        ScancodeQueue { inner: array_queue_new(SCANCODE_QUEUE_CAPACITY) }
    }

    /// Offers one byte; a full queue keeps its contents and drops the byte.
    pub fn push(&mut self, byte: u8) -> (r: PushOutcome)
        requires
            old(self).wf(),
        ensures
            final(self).wf(),
            final(self)@.len() <= SCANCODE_QUEUE_CAPACITY,
            final(self)@ == pushed(old(self)@, byte),
            r == (if old(self)@.len() < SCANCODE_QUEUE_CAPACITY {
                PushOutcome::Queued
            } else {
                PushOutcome::DroppedFull
            }),
    {
        match array_queue_push(&mut self.inner, byte) {
            Ok(()) => PushOutcome::Queued,
            Err(_) => PushOutcome::DroppedFull,
        }
    }

    /// Removes and returns the oldest byte, or `None` when nothing waits.
    pub fn try_pop(&mut self) -> (r: Option<u8>)
        requires
            old(self).wf(),
        ensures
            final(self).wf(),
            final(self)@.len() <= SCANCODE_QUEUE_CAPACITY,
            old(self)@.len() == 0 ==> r == None::<u8> && final(self)@ == old(self)@,
            old(self)@.len() > 0 ==> r == Some(old(self)@[0]) && final(self)@
                == old(self)@.drop_first(),
    {
        array_queue_pop(&mut self.inner)
    }
}

} // verus!
