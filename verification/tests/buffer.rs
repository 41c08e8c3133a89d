use e32_simulator::buffer::Buffer;

#[test]
fn new_buffer_is_empty() {
    let mut b = Buffer::new(4);
    assert_eq!(b.available(), 0);
    assert_eq!(b.dequeue(), None);
    assert_eq!(b.deallqueue(), Vec::<u8>::new());
}

#[test]
fn enqueue_accepts_until_full() {
    let mut b = Buffer::new(3);
    assert!(b.enqueue(1));
    assert!(b.enqueue(2));
    assert!(b.enqueue(3));
    assert_eq!(b.available(), 3);
    assert!(!b.enqueue(4));
    assert_eq!(b.available(), 3);
    assert_eq!(b.deallqueue(), vec![1, 2, 3]);
}

#[test]
fn refused_byte_changes_nothing() {
    let mut b = Buffer::new(2);
    assert!(b.enqueue(10));
    assert!(b.enqueue(20));
    assert!(!b.enqueue(30));
    assert!(!b.enqueue(40));
    assert_eq!(b.dequeue(), Some(10));
    assert_eq!(b.dequeue(), Some(20));
    assert_eq!(b.dequeue(), None);
}

#[test]
fn dequeue_on_empty_changes_nothing() {
    let mut b = Buffer::new(2);
    assert_eq!(b.dequeue(), None);
    assert_eq!(b.available(), 0);
    assert!(b.enqueue(7));
    assert_eq!(b.available(), 1);
    assert_eq!(b.dequeue(), Some(7));
    assert_eq!(b.dequeue(), None);
    assert_eq!(b.available(), 0);
}

#[test]
fn bytes_leave_in_arrival_order() {
    let mut b = Buffer::new(8);
    for x in [5u8, 4, 3, 2, 1] {
        assert!(b.enqueue(x));
    }
    assert_eq!(b.dequeue(), Some(5));
    assert_eq!(b.dequeue(), Some(4));
    assert_eq!(b.deallqueue(), vec![3, 2, 1]);
}

#[test]
fn indices_wrap_around_the_ring() {
    let mut b = Buffer::new(3);
    for round in 0u8..10 {
        assert!(b.enqueue(round));
        assert!(b.enqueue(round.wrapping_add(100)));
        assert_eq!(b.dequeue(), Some(round));
        assert_eq!(b.dequeue(), Some(round.wrapping_add(100)));
        assert_eq!(b.available(), 0);
    }
    assert!(b.enqueue(1));
    assert!(b.enqueue(2));
    assert_eq!(b.dequeue(), Some(1));
    assert!(b.enqueue(3));
    assert!(b.enqueue(4));
    assert!(!b.enqueue(5));
    assert_eq!(b.deallqueue(), vec![2, 3, 4]);
}

#[test]
fn available_is_the_clamped_count() {
    let cap: usize = 4;
    let mut b = Buffer::new(cap);
    let mut expected: i64 = 0;
    let script = [true, true, false, false, false, true, true, true, true, true, true, false, true];
    for (i, put) in script.iter().enumerate() {
        if *put {
            b.enqueue(i as u8);
            expected = (expected + 1).min(cap as i64);
        } else {
            b.dequeue();
            expected = (expected - 1).max(0);
        }
        assert_eq!(b.available() as i64, expected);
    }
    assert_eq!(b.available(), 4);
}

#[test]
fn drain_leaves_the_buffer_empty_and_usable() {
    let mut b = Buffer::new(4);
    assert!(b.enqueue(1));
    assert!(b.enqueue(2));
    assert_eq!(b.deallqueue(), vec![1, 2]);
    assert_eq!(b.available(), 0);
    assert_eq!(b.deallqueue(), Vec::<u8>::new());
    assert!(b.enqueue(9));
    assert_eq!(b.deallqueue(), vec![9]);
}

#[test]
fn zero_capacity_refuses_everything() {
    let mut b = Buffer::new(0);
    assert!(!b.enqueue(1));
    assert_eq!(b.available(), 0);
    assert_eq!(b.dequeue(), None);
    assert_eq!(b.deallqueue(), Vec::<u8>::new());
}

#[test]
fn full_size_buffer_holds_256_bytes() {
    let mut b = Buffer::new(256);
    for i in 0..256u32 {
        assert!(b.enqueue(i as u8));
    }
    assert!(!b.enqueue(0));
    let all = b.deallqueue();
    assert_eq!(all.len(), 256);
    assert_eq!(all[0], 0);
    assert_eq!(all[255], 255);
}
