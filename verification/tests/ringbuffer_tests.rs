use hs::ringbuffer::{RingBuffer, RING_BUFFER_SIZE};

#[test]
fn fifo_order() {
    let mut r = RingBuffer::new();
    assert_eq!(r.pop(), None);
    assert!(r.push(1));
    assert!(r.push(2));
    assert!(r.push(3));
    assert_eq!(r.len(), 3);
    assert_eq!(r.pop(), Some(1));
    assert!(r.push(4));
    assert_eq!(r.pop(), Some(2));
    assert_eq!(r.pop(), Some(3));
    assert_eq!(r.pop(), Some(4));
    assert_eq!(r.pop(), None);
}

#[test]
fn full_queue_drops_bytes() {
    let mut r = RingBuffer::new();
    for i in 0..RING_BUFFER_SIZE {
        assert!(r.push(i as u8));
    }
    assert!(!r.push(0xFF));
    assert_eq!(r.len(), RING_BUFFER_SIZE);
    assert_eq!(r.pop(), Some(0));
}

#[test]
fn wraps_around() {
    let mut r = RingBuffer::new();
    for round in 0..3 * RING_BUFFER_SIZE {
        assert!(r.push(round as u8));
        assert!(r.push((round + 1) as u8));
        assert_eq!(r.pop(), Some(round as u8));
        assert_eq!(r.pop(), Some((round + 1) as u8));
    }
    assert_eq!(r.len(), 0);
}
