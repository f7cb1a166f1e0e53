use svc_telemetry::ring::RingBuffer;
use svc_telemetry::telemetry::AircraftId;

#[test]
fn new_buffer_is_empty() {
    let buffer: RingBuffer<u32> = RingBuffer::new(3);
    assert_eq!(buffer.len(), 0);
    assert_eq!(buffer.capacity(), 3);
    assert_eq!(buffer.snapshot(), Vec::<u32>::new());
}

#[test]
fn push_keeps_insertion_order_below_capacity() {
    let mut buffer = RingBuffer::new(3);
    buffer.push(1);
    buffer.push(2);
    assert_eq!(buffer.snapshot(), vec![1, 2]);
    assert_eq!(buffer.len(), 2);
}

#[test]
fn full_buffer_drops_its_oldest_entry() {
    let mut buffer = RingBuffer::new(3);
    for item in 1..=3 {
        buffer.push(item);
    }
    assert_eq!(buffer.snapshot(), vec![1, 2, 3]);
    buffer.push(4);
    assert_eq!(buffer.snapshot(), vec![2, 3, 4]);
    assert_eq!(buffer.len(), 3);
}

#[test]
fn overfilled_buffer_holds_the_last_n_in_order() {
    for capacity in [1usize, 2, 5, 10] {
        for extra in [1usize, 2, 7, 25] {
            let mut buffer = RingBuffer::new(capacity);
            let pushed: Vec<usize> = (0..capacity + extra).collect();
            for item in &pushed {
                buffer.push(*item);
            }
            let snapshot = buffer.snapshot();
            assert_eq!(snapshot.len(), capacity);
            assert_eq!(snapshot, pushed[extra..].to_vec());
            assert_eq!(buffer.capacity(), capacity);
        }
    }
}

#[test]
fn snapshot_does_not_drain() {
    let mut buffer = RingBuffer::new(2);
    buffer.push("a".to_string());
    buffer.push("b".to_string());
    assert_eq!(buffer.snapshot(), vec!["a".to_string(), "b".to_string()]);
    assert_eq!(buffer.snapshot(), vec!["a".to_string(), "b".to_string()]);
    assert_eq!(buffer.len(), 2);
    buffer.push("c".to_string());
    assert_eq!(buffer.snapshot(), vec!["b".to_string(), "c".to_string()]);
}

#[test]
fn buffer_of_capacity_zero_holds_nothing() {
    let mut buffer = RingBuffer::new(0);
    buffer.push(1);
    buffer.push(2);
    assert_eq!(buffer.len(), 0);
    assert!(buffer.snapshot().is_empty());
}

#[test]
fn buffer_holds_records() {
    let mut buffer = RingBuffer::new(1);
    buffer.push(AircraftId { identifier: "N1".to_string(), timestamp_network: 1 });
    buffer.push(AircraftId { identifier: "N2".to_string(), timestamp_network: 2 });
    let snapshot = buffer.snapshot();
    assert_eq!(snapshot.len(), 1);
    assert_eq!(snapshot[0].identifier, "N2");
    assert_eq!(snapshot[0].timestamp_network, 2);
}
