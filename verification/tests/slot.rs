use atomic_slot::AtomicSlot;
use std::sync::atomic::Ordering;

#[test]
fn sequential_swap_and_take() {
    let mut slot = AtomicSlot::new(Box::new(10));

    let old = slot.swap(Some(Box::new(20)));
    assert_eq!(*old.unwrap(), 10);

    let taken = slot.take();
    assert_eq!(*taken.unwrap(), 20);
    assert!(slot.is_none());
}

#[test]
fn sequential_empty_store() {
    let mut slot = AtomicSlot::<i32>::empty();
    assert!(slot.is_none());

    slot.store(Some(Box::new(5)));
    assert!(slot.is_some());
    assert_eq!(*slot.take().unwrap(), 5);
}

#[test]
fn ownership_round_trip() {
    let mut slot = AtomicSlot::new(Box::new(7));
    assert_eq!(*slot.take().unwrap(), 7);
    assert!(slot.is_none());
}

#[test]
fn exchange_returns_predecessor() {
    let mut slot = AtomicSlot::new(Box::new(1));
    let old = slot.swap(Some(Box::new(2)));
    assert_eq!(*old.unwrap(), 1);
    assert_eq!(*slot.take().unwrap(), 2);
}

#[test]
fn repeated_takes_drain_once() {
    let mut slot = AtomicSlot::new(Box::new(9));
    let mut received: Vec<Option<i32>> = Vec::new();
    for _ in 0..4 {
        received.push(slot.take().map(|b| *b));
    }
    assert_eq!(received.iter().filter(|r| r.is_some()).count(), 1);
    assert_eq!(received[0], Some(9));
    assert!(received[1..].iter().all(|r| r.is_none()));
}

#[test]
fn swaps_conserve_every_value() {
    let mut slot = AtomicSlot::<u64>::empty();
    let mut recovered: Vec<u64> = Vec::new();
    for v in [0u64, 1, 2] {
        if let Some(prev) = slot.swap(Some(Box::new(v))) {
            recovered.push(*prev);
        }
    }
    recovered.push(*slot.take().unwrap());
    recovered.sort();
    assert_eq!(recovered, vec![0, 1, 2]);
}

#[test]
fn emptiness_observation() {
    let mut slot = AtomicSlot::<i32>::empty();
    assert!(slot.is_none());
    assert!(!slot.is_some());

    slot.store(Some(Box::new(3)));
    assert!(slot.is_some());
    assert!(!slot.is_none());

    let _ = slot.take();
    assert!(slot.is_none());
}

#[test]
fn store_releases_previous_value() {
    let mut slot = AtomicSlot::new(Box::new(11));
    slot.store(Some(Box::new(12)));
    assert_eq!(*slot.take().unwrap(), 12);
    assert!(slot.is_none());
}

#[test]
fn store_none_empties_slot() {
    let mut slot = AtomicSlot::new(Box::new(6));
    slot.store(None);
    assert!(slot.is_none());
}

#[test]
fn swap_ordered_seq_cst() {
    let mut slot = AtomicSlot::new(Box::new(3));
    let old = slot.swap_ordered(Some(Box::new(4)), Ordering::SeqCst);
    assert_eq!(*old.unwrap(), 3);
    assert_eq!(*slot.take().unwrap(), 4);
}

#[test]
fn take_ordered_acquire() {
    let mut slot = AtomicSlot::new(Box::new(8));
    assert_eq!(*slot.take_ordered(Ordering::Acquire).unwrap(), 8);
    assert!(slot.is_none());
}

#[test]
fn store_ordered_release() {
    let mut slot = AtomicSlot::<&str>::empty();
    slot.store_ordered(Some(Box::new("data")), Ordering::Release);
    assert_eq!(*slot.take().unwrap(), "data");
}

#[test]
fn is_none_ordered_relaxed() {
    let slot = AtomicSlot::<i32>::empty();
    assert!(slot.is_none_ordered(Ordering::Relaxed));
}

#[test]
fn default_is_empty() {
    let slot = AtomicSlot::<i32>::default();
    assert!(slot.is_none());
}

#[test]
fn swap_on_empty_returns_nothing() {
    let mut slot = AtomicSlot::<i32>::empty();
    let old = slot.swap(Some(Box::new(1)));
    assert!(old.is_none());
    assert_eq!(*slot.take().unwrap(), 1);
}
