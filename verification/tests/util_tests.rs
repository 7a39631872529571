use sys_stats::util::{rectangle, BoundedQueue, Position, Rectangle};

fn items(queue: &BoundedQueue<u32>) -> Vec<u32> {
    queue.iter().copied().collect()
}

#[test]
fn position_new_keeps_coordinates() {
    let p = Position::new(12, 34);
    assert_eq!(p.x, 12);
    assert_eq!(p.y, 34);
}

#[test]
fn rectangle_spans_size_from_position() {
    let r = rectangle(35, 40, &Position::new(45, 0));
    assert_eq!(r, Rectangle { left: 45, top: 40, right: 80, bottom: 0 });
}

#[test]
fn queue_starts_empty() {
    let q: BoundedQueue<u32> = BoundedQueue::new(3);
    assert_eq!(q.iter().count(), 0);
    assert!(items(&q).is_empty());
}

#[test]
fn queue_keeps_items_in_order_below_capacity() {
    let mut q = BoundedQueue::new(3);
    q.push(1);
    q.push(2);
    assert_eq!(items(&q), vec![1, 2]);
}

#[test]
fn queue_drops_oldest_when_full() {
    let mut q = BoundedQueue::new(3);
    for v in 1..=5 {
        q.push(v);
    }
    assert_eq!(items(&q), vec![3, 4, 5]);
    assert_eq!(q.iter().count(), 3);
}

#[test]
fn queue_keeps_latest_capacity_items() {
    let mut q = BoundedQueue::new(4);
    for v in 0..100u32 {
        q.push(v);
        assert!(q.iter().count() <= 4);
    }
    assert_eq!(items(&q), vec![96, 97, 98, 99]);
}

#[test]
fn queue_of_capacity_one_holds_last_item() {
    let mut q = BoundedQueue::new(1);
    q.push(7);
    q.push(8);
    assert_eq!(items(&q), vec![8]);
}

#[test]
fn queue_of_capacity_zero_is_not_bounded() {
    let mut q = BoundedQueue::new(0);
    q.push(1);
    q.push(2);
    q.push(3);
    assert_eq!(items(&q), vec![1, 2, 3]);
}
