use minimint::data::ConsensusItem;
use minimint::queue::IntakeQueue;

fn item(b: u8) -> ConsensusItem {
    ConsensusItem { payload: vec![b] }
}

#[test]
fn intake_queue_backpressure_at_capacity_four() {
    let mut q = IntakeQueue::new(4);
    for b in 1..=4 {
        q.try_push(item(b)).expect("fits while under capacity");
    }

    // The fifth submission is refused and handed back intact, so the
    // submitter can suspend and retry; nothing is dropped.
    let back = q.try_push(item(5)).expect_err("queue is full");
    assert_eq!(back.payload, vec![5]);

    // The driver pops one item: the oldest, and a slot frees.
    let popped = q.pop().expect("queue was full");
    assert_eq!(popped.payload, vec![1]);

    // The retried submission now fits.
    q.try_push(item(5)).expect("slot freed");

    // First in, first out, with the retried item last.
    for b in 2..=5 {
        assert_eq!(q.pop().expect("still filled").payload, vec![b]);
    }
    assert!(q.pop().is_none());
}

#[test]
fn pop_on_empty_queue_is_none() {
    let mut q = IntakeQueue::new(1);
    assert!(q.pop().is_none());
    q.try_push(item(7)).expect("fits");
    assert_eq!(q.pop().expect("one item").payload, vec![7]);
}
