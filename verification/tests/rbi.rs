use riot_rs::rbi::RingBufferIndex;
use riot_rs::rbi::next_smaller_power_of_two;

#[test]
fn basic() {
    let mut rb = RingBufferIndex::new(4);
    assert!(rb.is_empty());
    assert_eq!(rb.available(), 0);
    assert!(!rb.is_full());
    assert_eq!(rb.get(), None);

    assert_eq!(rb.put(), Some(0u8));
    assert_eq!(rb.available(), 1);
    assert_eq!(rb.put(), Some(1u8));
    assert_eq!(rb.available(), 2);
    assert_eq!(rb.put(), Some(2u8));
    assert_eq!(rb.available(), 3);
    assert_eq!(rb.put(), Some(3u8));
    assert_eq!(rb.available(), 4);

    assert_eq!(rb.put(), None);
    assert!(rb.is_full());
    assert!(!rb.is_empty());

    assert_eq!(rb.get(), Some(0u8));
    assert_eq!(rb.available(), 3);
    assert_eq!(rb.get(), Some(1u8));
    assert_eq!(rb.available(), 2);
    assert_eq!(rb.get(), Some(2u8));
    assert_eq!(rb.available(), 1);
    assert_eq!(rb.get(), Some(3u8));
    assert_eq!(rb.available(), 0);

    assert!(rb.is_empty());
    assert_eq!(rb.get(), None);
}

fn test_with_size(size: u8, n: usize) {
    let mut rb = RingBufferIndex::new(size);
    for i in 0..n {
        assert_eq!(rb.put(), Some(i as u8 % next_smaller_power_of_two(size)));
        assert_eq!(rb.get(), Some(i as u8 % next_smaller_power_of_two(size)));
    }
}

#[test]
fn counter_overflow_size4() {
    test_with_size(4, 16);
}

#[test]
fn counter_overflow_size128() {
    test_with_size(128, 256);
}

#[test]
fn counter_overflow_size255() {
    test_with_size(255, 1024);
}

#[test]
fn test_is_full() {
    let size = 128;
    let mut rb = RingBufferIndex::new(size);
    for i in 0..size {
        assert_eq!(rb.put(), Some(i as u8));
    }
    assert_eq!(rb.available(), 128);
    assert!(rb.is_full());
}

#[test]
fn test_next_smaller_power_of_two() {
    assert_eq!(next_smaller_power_of_two(0), 1);
    assert_eq!(next_smaller_power_of_two(1), 1);
    assert_eq!(next_smaller_power_of_two(2), 2);
    assert_eq!(next_smaller_power_of_two(3), 2);
    assert_eq!(next_smaller_power_of_two(4), 4);
    assert_eq!(next_smaller_power_of_two(5), 4);
    assert_eq!(next_smaller_power_of_two(63), 32);
    assert_eq!(next_smaller_power_of_two(128), 128);
    assert_eq!(next_smaller_power_of_two(129), 128);
    assert_eq!(next_smaller_power_of_two(255), 128);
}

#[test]
fn zero_sized() {
    let mut rb = RingBufferIndex::new(0);
    println!("{:#?}", &rb);
    assert!(rb.is_full());
    assert!(rb.is_empty());
    assert_eq!(rb.put(), None);
}

#[test]
fn capacity_is_largest_power_of_two() {
    assert_eq!(RingBufferIndex::new(0).capacity(), 0);
    // a mask of 0 cannot distinguish a one-slot buffer from an empty one
    assert_eq!(RingBufferIndex::new(1).capacity(), 0);
    assert_eq!(RingBufferIndex::new(2).capacity(), 2);
    assert_eq!(RingBufferIndex::new(3).capacity(), 2);
    assert_eq!(RingBufferIndex::new(4).capacity(), 4);
    assert_eq!(RingBufferIndex::new(5).capacity(), 4);
    assert_eq!(RingBufferIndex::new(127).capacity(), 64);
    assert_eq!(RingBufferIndex::new(128).capacity(), 128);
    assert_eq!(RingBufferIndex::new(255).capacity(), 128);
}

#[test]
fn available_never_exceeds_capacity() {
    let mut rb = RingBufferIndex::new(4);
    for _ in 0..10 {
        let _ = rb.put();
        assert!((rb.available() as usize) <= rb.capacity());
        assert_eq!(rb.is_empty(), rb.available() == 0);
        assert_eq!(rb.is_full(), rb.available() as usize == rb.capacity());
    }
    for _ in 0..10 {
        let _ = rb.get();
        assert!((rb.available() as usize) <= rb.capacity());
        assert_eq!(rb.is_empty(), rb.available() == 0);
        assert_eq!(rb.is_full(), rb.available() as usize == rb.capacity());
    }
}

#[test]
fn put_then_get_same_slot() {
    let mut rb = RingBufferIndex::new(8);
    // advance into the ring a little so the slot is not 0
    for _ in 0..3 {
        let _ = rb.put();
        let _ = rb.get();
    }
    assert!(rb.is_empty());
    assert!(!rb.is_full());
    let put_idx = rb.put();
    let get_idx = rb.get();
    assert_eq!(put_idx, Some(3u8));
    assert_eq!(put_idx, get_idx);
}

#[test]
fn peek_matches_get() {
    let mut rb = RingBufferIndex::new(4);
    assert_eq!(rb.peek(), None);
    let _ = rb.put();
    let _ = rb.put();
    assert_eq!(rb.peek(), Some(0u8));
    assert_eq!(rb.get(), Some(0u8));
    assert_eq!(rb.peek(), Some(1u8));
}
