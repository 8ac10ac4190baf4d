use mios::executor::Executor;
use mios::handoff::{DeliveryReport, ScancodePoll, ScancodeStream, WakeSlot};
use mios::queue::{PushOutcome, ScancodeQueue, SCANCODE_QUEUE_CAPACITY};

#[test]
fn queue_is_first_in_first_out() {
    let mut q = ScancodeQueue::new();
    for b in 0..100u8 {
        assert_eq!(q.push(b), PushOutcome::Queued);
    }
    for b in 0..100u8 {
        assert_eq!(q.try_pop(), Some(b));
    }
    assert_eq!(q.try_pop(), None);
}

#[test]
fn full_queue_drops_new_bytes_and_keeps_order() {
    let mut q = ScancodeQueue::new();
    for i in 0..SCANCODE_QUEUE_CAPACITY {
        assert_eq!(q.push((i % 256) as u8), PushOutcome::Queued);
    }
    assert_eq!(q.push(200), PushOutcome::DroppedFull);
    assert_eq!(q.push(201), PushOutcome::DroppedFull);
    for i in 0..SCANCODE_QUEUE_CAPACITY {
        assert_eq!(q.try_pop(), Some((i % 256) as u8));
    }
    assert_eq!(q.try_pop(), None);
    assert_eq!(q.push(7), PushOutcome::Queued);
    assert_eq!(q.try_pop(), Some(7));
}

#[test]
fn empty_queue_pops_nothing() {
    let mut q = ScancodeQueue::new();
    assert_eq!(q.try_pop(), None);
}

#[test]
fn wake_slot_keeps_latest_registration() {
    let mut slot = WakeSlot::new();
    assert_eq!(slot.signal(), None);
    slot.register(1);
    slot.register(2);
    assert_eq!(slot.signal(), Some(2));
    assert_eq!(slot.signal(), None);
    slot.register(3);
    assert_eq!(slot.take(), Some(3));
    assert_eq!(slot.take(), None);
}

#[test]
fn poll_with_byte_waiting_takes_fast_path() {
    let mut s = ScancodeStream::new();
    assert_eq!(s.add_scancode(0x23), DeliveryReport::Queued { woken: None });
    assert_eq!(s.poll_next(5), ScancodePoll::Ready(0x23));
    // nothing was registered on the fast path
    assert_eq!(s.add_scancode(0x12), DeliveryReport::Queued { woken: None });
}

#[test]
fn empty_poll_registers_and_signal_wakes_task() {
    let mut s = ScancodeStream::new();
    assert_eq!(s.poll_next(5), ScancodePoll::Pending);
    assert_eq!(s.add_scancode(0x23), DeliveryReport::Queued { woken: Some(5) });
    assert_eq!(s.poll_next(5), ScancodePoll::Ready(0x23));
}

#[test]
fn byte_arriving_before_registration_is_found_by_recheck() {
    let mut s = ScancodeStream::new();
    assert_eq!(s.try_next(), None);
    assert_eq!(s.add_scancode(0x26), DeliveryReport::Queued { woken: None });
    s.register_interest(9);
    assert_eq!(s.recheck(), ScancodePoll::Ready(0x26));
    // the registration was withdrawn with the byte
    assert_eq!(s.add_scancode(0x19), DeliveryReport::Queued { woken: None });
}

#[test]
fn byte_arriving_between_registration_and_recheck_is_not_missed() {
    let mut s = ScancodeStream::new();
    assert_eq!(s.try_next(), None);
    s.register_interest(9);
    assert_eq!(s.add_scancode(0x26), DeliveryReport::Queued { woken: Some(9) });
    assert_eq!(s.recheck(), ScancodePoll::Ready(0x26));
    assert_eq!(s.recheck(), ScancodePoll::Pending);
}

#[test]
fn delivery_to_full_stream_is_dropped() {
    let mut s = ScancodeStream::new();
    for i in 0..SCANCODE_QUEUE_CAPACITY {
        assert_eq!(s.add_scancode(i as u8), DeliveryReport::Queued { woken: None });
    }
    assert_eq!(s.add_scancode(0xaa), DeliveryReport::Dropped);
    assert_eq!(s.poll_next(1), ScancodePoll::Ready(0));
}

#[test]
fn suspended_task_is_not_polled_until_woken() {
    let mut ex = Executor::new();
    let mut stream = ScancodeStream::new();
    let task = ex.spawn();
    let mut polls = 0;
    // first pass: the task finds no byte and suspends
    assert_eq!(ex.next_task(), Some(task));
    polls += 1;
    assert_eq!(stream.poll_next(task), ScancodePoll::Pending);
    ex.finish_poll(task, false);
    // nothing is runnable: the scheduler would park here, and no poll happens
    for _ in 0..10 {
        assert!(!ex.has_runnable());
        assert_eq!(ex.next_task(), None);
    }
    assert_eq!(polls, 1);
    // the interrupt delivers a byte and signals the task
    match stream.add_scancode(0x23) {
        DeliveryReport::Queued { woken: Some(id) } => ex.wake(id),
        other => panic!("unexpected report {:?}", other),
    }
    assert!(ex.has_runnable());
    assert_eq!(ex.next_task(), Some(task));
    polls += 1;
    assert_eq!(stream.poll_next(task), ScancodePoll::Ready(0x23));
    assert_eq!(polls, 2);
}

#[test]
fn wake_during_poll_makes_task_runnable_again() {
    let mut ex = Executor::new();
    let task = ex.spawn();
    assert_eq!(ex.next_task(), Some(task));
    ex.wake(task);
    ex.finish_poll(task, false);
    assert_eq!(ex.next_task(), Some(task));
}

#[test]
fn completed_task_is_removed_and_others_run_in_order() {
    let mut ex = Executor::new();
    let a = ex.spawn();
    let b = ex.spawn();
    assert_eq!((a, b), (0, 1));
    assert_eq!(ex.next_task(), Some(a));
    ex.finish_poll(a, true);
    assert_eq!(ex.next_task(), Some(b));
    ex.finish_poll(b, false);
    assert_eq!(ex.next_task(), None);
    ex.wake(a);
    assert_eq!(ex.next_task(), None);
    ex.wake(b);
    assert_eq!(ex.next_task(), Some(b));
}
