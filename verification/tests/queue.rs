use hub75_pico::queue::Queue;

#[test]
fn queue_is_a_bounded_stack() {
    let mut queue: Queue<u8, 3> = Queue::new();
    assert_eq!(queue.len(), 0);
    assert_eq!(queue.pull(), None);
    assert_eq!(queue.push(1), None);
    assert_eq!(queue.push(2), None);
    assert_eq!(queue.push(3), None);
    assert_eq!(queue.push(4), Some(4));
    assert_eq!(queue.len(), 3);
    assert_eq!(queue.iter(), vec![1, 2, 3]);
    assert_eq!(queue.pull(), Some(3));
    assert_eq!(queue.pull(), Some(2));
    assert_eq!(queue.push(5), None);
    assert_eq!(queue.iter(), vec![1, 5]);
    assert_eq!(queue.pull(), Some(5));
    assert_eq!(queue.pull(), Some(1));
    assert_eq!(queue.pull(), None);
}

#[test]
fn push_unique_skips_what_is_held() {
    let mut queue: Queue<(u8, u8), 2> = Queue::new();
    assert_eq!(queue.push_unique((1, 2)), None);
    assert_eq!(queue.push_unique((1, 2)), None);
    assert_eq!(queue.len(), 1);
    assert_eq!(queue.push_unique((2, 1)), None);
    assert_eq!(queue.iter(), vec![(1, 2), (2, 1)]);
    // Full: a new value is handed back, a held one is not.
    assert_eq!(queue.push_unique((3, 3)), Some((3, 3)));
    assert_eq!(queue.push_unique((2, 1)), None);
    assert_eq!(queue.iter(), vec![(1, 2), (2, 1)]);
}

#[test]
fn a_queue_without_room_takes_nothing() {
    let mut queue: Queue<u8, 0> = Queue::new();
    assert_eq!(queue.push(1), Some(1));
    assert_eq!(queue.push_unique(1), Some(1));
    assert_eq!(queue.len(), 0);
}
