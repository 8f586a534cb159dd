use edge_resize::bridge::{EventBridge, DEFAULT_CAPACITY};
use edge_resize::events::RawMouseEvent;

#[test]
fn fifo_order() {
    let mut b = EventBridge::new(DEFAULT_CAPACITY);
    assert!(b.send(RawMouseEvent::Move(1, 1)));
    assert!(b.send(RawMouseEvent::Move(2, 2)));
    assert!(b.send(RawMouseEvent::Move(3, 3)));
    assert_eq!(b.receive(), Some(RawMouseEvent::Move(1, 1)));
    assert_eq!(b.receive(), Some(RawMouseEvent::Move(2, 2)));
    assert_eq!(b.receive(), Some(RawMouseEvent::Move(3, 3)));
    assert_eq!(b.receive(), None);
}

#[test]
fn full_queue_drops_oldest_and_keeps_newest() {
    let mut b = EventBridge::new(3);
    assert!(b.send(RawMouseEvent::Move(1, 1)));
    assert!(b.send(RawMouseEvent::Move(2, 2)));
    assert!(b.send(RawMouseEvent::Move(3, 3)));
    // Saturated: send reports the drop but still keeps the new event.
    assert!(!b.send(RawMouseEvent::Move(4, 4)));
    assert_eq!(b.len(), 3);
    assert_eq!(b.dropped_events(), 1);
    assert_eq!(b.receive(), Some(RawMouseEvent::Move(2, 2)));
    assert_eq!(b.receive(), Some(RawMouseEvent::Move(3, 3)));
    assert_eq!(b.receive(), Some(RawMouseEvent::Move(4, 4)));
    assert_eq!(b.receive(), None);
}

#[test]
fn dropped_counter_accumulates() {
    let mut b = EventBridge::new(1);
    assert!(b.send(RawMouseEvent::Move(1, 1)));
    assert!(!b.send(RawMouseEvent::Move(2, 2)));
    assert!(!b.send(RawMouseEvent::Move(3, 3)));
    assert_eq!(b.dropped_events(), 2);
    assert_eq!(b.receive(), Some(RawMouseEvent::Move(3, 3)));
}

#[test]
fn capacity_is_reported() {
    let b = EventBridge::new(DEFAULT_CAPACITY);
    assert_eq!(b.capacity(), DEFAULT_CAPACITY);
    assert_eq!(b.len(), 0);
    assert_eq!(b.dropped_events(), 0);
}
