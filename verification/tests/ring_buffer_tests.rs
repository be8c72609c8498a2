use real_trans::RingBuffer;

#[test]
fn test_ring_buffer() {
    let mut rb = RingBuffer::new(10);

    let data = vec![1, 2, 3, 4, 5];
    assert_eq!(rb.write(&data), 5);

    assert_eq!(rb.readable_size(), 5);
    assert_eq!(rb.writable_size(), 5);

    let read_data = rb.read(3);
    assert_eq!(read_data, vec![1, 2, 3]);
    assert_eq!(rb.readable_size(), 2);

    // Overflow handling: 2 elements remain, so only 8 of 11 fit.
    let large_data = vec![10, 11, 12, 13, 14, 15, 16, 17, 18, 19, 20];
    let written = rb.write(&large_data);
    assert_eq!(written, 8);
    assert_eq!(rb.readable_size(), 10);
}

#[test]
fn test_ring_buffer_never_exceeds_capacity() {
    let mut rb: RingBuffer<i16> = RingBuffer::new(4);
    let chunk = vec![7i16; 10];
    for _ in 0..5 {
        rb.write(&chunk);
        assert!(rb.readable_size() <= 4);
    }
    assert_eq!(rb.readable_size(), 4);
    assert_eq!(rb.writable_size(), 0);
}

#[test]
fn test_ring_buffer_fifo_order_across_reads() {
    let mut rb = RingBuffer::new(8);
    assert_eq!(rb.write(&[1, 2, 3, 4, 5, 6]), 6);
    let first = rb.read(2);
    let second = rb.read(3);
    assert_eq!(first, vec![1, 2]);
    assert_eq!(second, vec![3, 4, 5]);
    assert_eq!(rb.read(10), vec![6]);
    assert_eq!(rb.read(10), Vec::<i32>::new());
}

#[test]
fn test_ring_buffer_zero_capacity() {
    let mut rb: RingBuffer<u8> = RingBuffer::new(0);
    assert_eq!(rb.write(&[1, 2, 3]), 0);
    assert_eq!(rb.readable_size(), 0);
    assert_eq!(rb.read(1), Vec::<u8>::new());
}

#[test]
fn test_ring_buffer_clear() {
    let mut rb = RingBuffer::new(3);
    rb.write(&[9, 9, 9]);
    rb.clear();
    assert_eq!(rb.readable_size(), 0);
    assert_eq!(rb.writable_size(), 3);
}
