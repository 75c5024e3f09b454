use rawdio::{AssignedBufferPool, BufferPool, Connection, Endpoint, EndpointType, FrameBuffer, Id};

#[test]
fn buffer_pool_hands_back_the_last_buffer_given() {
    let mut pool = BufferPool::from_buffers(vec![1, 2, 3]);
    assert_eq!(pool.len(), 3);
    pool.add(7);
    assert_eq!(pool.remove(), Some(7));
    assert_eq!(pool.len(), 3);
    assert_eq!(pool.remove(), Some(3));
    assert_eq!(pool.remove(), Some(2));
    assert_eq!(pool.remove(), Some(1));
    assert_eq!(pool.remove(), None);
    assert_eq!(pool.len(), 0);
}

#[test]
fn assigned_pool_gives_back_the_buffer_of_an_id() {
    let mut pool = AssignedBufferPool::with_capacity(4);
    assert!(pool.is_empty());
    let first = Id::from_raw(1);
    let second = Id::from_raw(2);
    pool.add("one", &first);
    pool.add("two", &second);
    assert!(pool.has(&first));
    assert!(!pool.has(&Id::from_raw(3)));
    assert_eq!(pool.remove(&first), Some("one"));
    assert_eq!(pool.remove(&first), None);
    assert!(pool.has(&second));
    assert!(!pool.is_empty());
}

#[test]
fn assigning_again_replaces_the_buffer() {
    let mut pool = AssignedBufferPool::with_capacity(1);
    let id = Id::from_raw(9);
    pool.add(1, &id);
    pool.add(2, &id);
    assert_eq!(pool.remove(&id), Some(2));
    assert!(pool.is_empty());
}

#[test]
fn remove_next_empties_the_pool() {
    let mut pool = AssignedBufferPool::with_capacity(3);
    pool.add(10, &Id::from_raw(1));
    pool.add(20, &Id::from_raw(2));
    let mut taken = Vec::new();
    while let Some((id, buffer)) = pool.remove_next() {
        taken.push((id.as_raw(), buffer));
    }
    taken.sort();
    assert_eq!(taken, vec![(1, 10), (2, 20)]);
    assert!(pool.is_empty());
    assert!(pool.remove_next().is_none());
}

#[test]
fn connection_defaults_to_the_first_channels() {
    let connection = Connection::new(Id::from_raw(1), Id::from_raw(2), 2);
    assert_eq!(connection.source, Endpoint::new(Id::from_raw(1), EndpointType::Output));
    assert_eq!(connection.destination, Endpoint::new(Id::from_raw(2), EndpointType::Input));
    assert_eq!(connection.source_output_channel, 0);
    assert_eq!(connection.destination_input_channel, 0);
    assert_eq!(connection.channel_count, 2);
}

#[test]
fn connection_builders_change_one_channel_each() {
    let connection = Connection::new(Id::from_raw(1), Id::from_raw(2), 1)
        .with_source_output_channel(3)
        .with_destination_input_channel(5);
    assert_eq!(connection.source_output_channel, 3);
    assert_eq!(connection.destination_input_channel, 5);
    assert_eq!(connection.channel_count, 1);
    assert_eq!(connection.source.dsp_id, Id::from_raw(1));
    assert_eq!(connection.destination.dsp_id, Id::from_raw(2));
}

#[test]
fn ids_keep_their_raw_value() {
    assert_eq!(Id::from_raw(42).as_raw(), 42);
    assert_eq!(Id::from_raw(42), Id::from_raw(42));
    assert_ne!(Id::from_raw(42), Id::from_raw(43));
}

#[test]
fn a_new_buffer_pool_holds_buffers_of_the_given_shape() {
    let mut pool: BufferPool<FrameBuffer<f32>> = BufferPool::new(3, 256, 2, 48_000);
    assert_eq!(pool.len(), 3);
    for _ in 0..3 {
        let buffer = pool.remove().expect("a free buffer");
        assert_eq!(buffer.frame_count(), 256);
        assert_eq!(buffer.channel_count(), 2);
        assert_eq!(buffer.sample_rate(), 48_000);
        assert!(buffer.channel(1).iter().all(|sample| *sample == 0.0));
    }
    assert!(pool.remove().is_none());
}
