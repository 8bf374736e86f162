use paperexp::buffer::{BufferError, SampleBuffer};

#[test]
fn page_multiple_capacity_is_accepted_empty() {
    let buffer = SampleBuffer::new(512).unwrap();
    assert_eq!(buffer.len(), 0);
    assert!(buffer.is_empty());
    assert_eq!(buffer.capacity(), 512);
    let bigger = SampleBuffer::new(1024).unwrap();
    assert_eq!(bigger.len(), 0);
}

#[test]
fn bad_capacities_are_refused() {
    assert_eq!(SampleBuffer::new(0).err(), Some(BufferError::ZeroCapacity));
    assert_eq!(SampleBuffer::new(100).err(), Some(BufferError::NotPageMultiple));
    assert_eq!(SampleBuffer::new(513).err(), Some(BufferError::NotPageMultiple));
    assert_eq!(SampleBuffer::new(1 << 60).err(), Some(BufferError::TooLarge));
}

#[test]
fn pushes_come_back_in_order() {
    let mut buffer = SampleBuffer::new(512).unwrap();
    for i in 0..300u64 {
        assert_eq!(buffer.push(i * 3 + 1), Ok(()));
    }
    assert_eq!(buffer.len(), 300);
    assert_eq!(buffer.get(0), 1);
    assert_eq!(buffer.get(299), 898);
    let expected: Vec<u64> = (0..300u64).map(|i| i * 3 + 1).collect();
    assert_eq!(buffer.to_vec(), expected);
}

#[test]
fn push_on_full_buffer_fails_and_keeps_it() {
    let mut buffer = SampleBuffer::new(512).unwrap();
    for i in 0..512u64 {
        assert_eq!(buffer.push(i), Ok(()));
    }
    assert_eq!(buffer.push(9999), Err(BufferError::Full));
    assert_eq!(buffer.len(), 512);
    let expected: Vec<u64> = (0..512u64).collect();
    assert_eq!(buffer.to_vec(), expected);
}
