use mic_bridge::queue::SampleQueue;

#[test]
fn queue_is_fifo() {
    let mut q = SampleQueue::new(8);
    assert!(q.is_empty());
    q.push(1);
    q.push(2);
    q.push(3);
    assert_eq!(q.len(), 3);
    assert_eq!(q.pop(), Some(1));
    assert_eq!(q.pop(), Some(2));
    assert_eq!(q.pop(), Some(3));
    assert_eq!(q.pop(), None);
}

#[test]
fn bounded_push_keeps_most_recent_in_order() {
    // Pushing N + K samples into a queue bounded at N leaves exactly the
    // most recent N samples, in their original relative order.
    let n = 4;
    let k = 3;
    let mut q = SampleQueue::new(n);
    let samples: Vec<i32> = (1..=(n + k) as i32).collect();
    q.push_samples(&samples);
    assert_eq!(q.len(), n);
    let mut drained = Vec::new();
    while let Some(v) = q.pop() {
        drained.push(v);
    }
    assert_eq!(drained, vec![4, 5, 6, 7]);
}

#[test]
fn eviction_drops_the_oldest_sample_first() {
    let mut q = SampleQueue::new(2);
    q.push(10);
    q.push(20);
    q.push(30);
    assert_eq!(q.len(), 2);
    assert_eq!(q.pop(), Some(20));
    assert_eq!(q.pop(), Some(30));
}

#[test]
fn capacity_is_reported() {
    let q = SampleQueue::new(48_000);
    assert_eq!(q.capacity(), 48_000);
}
