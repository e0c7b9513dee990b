use sink_bridge::queue::ByteQueue;

#[test]
fn queue_is_fifo() {
    let mut q = ByteQueue::new();
    assert_eq!(q.len(), 0);
    assert!(q.take(8).is_none());
    q.push(&[1, 2, 3]);
    q.push(&[4, 5]);
    assert_eq!(q.len(), 5);
    let d = q.take(4).unwrap();
    assert_eq!(d, vec![1, 2, 3, 4]);
    assert_eq!(q.len(), 1);
    let d2 = q.take(4).unwrap();
    assert_eq!(d2, vec![5]);
    assert_eq!(q.len(), 0);
    assert!(q.take(1).is_none());
}

#[test]
fn queue_take_stops_at_the_requested_cap() {
    let mut q = ByteQueue::new();
    q.push(&[7, 7, 7, 7, 7, 7, 7, 7, 7, 7]);
    let d = q.take(3).unwrap();
    assert_eq!(d, vec![7, 7, 7]);
    assert_eq!(q.len(), 7);
}

#[test]
fn queue_empty_push_changes_nothing() {
    let mut q = ByteQueue::new();
    q.push(&[]);
    assert_eq!(q.len(), 0);
    assert!(q.take(4).is_none());
    q.push(&[6]);
    q.push(&[]);
    assert_eq!(q.len(), 1);
    assert_eq!(q.take(4).unwrap(), vec![6]);
}
