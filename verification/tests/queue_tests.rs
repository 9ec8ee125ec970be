use jgb::ppu::queue::ArrayQueue;

#[test]
fn new() {
    let mut q: ArrayQueue<u8> = ArrayQueue::new();

    assert_eq!(None, q.front());
    assert_eq!(0, q.len());
    assert!(q.is_empty());
    assert_eq!(None, q.pop_front());
    assert_eq!(0, q.len());
    assert!(q.is_empty());
}

#[test]
fn push_pop() {
    let mut q = ArrayQueue::new();

    q.push_back(55);
    assert_eq!(1, q.len());
    assert!(!q.is_empty());
    assert_eq!(Some(55), q.front());
    assert_eq!(Some(55), q.pop_front());
    assert_eq!(None, q.pop_front());
    assert_eq!(0, q.len());
    assert!(q.is_empty());
    assert_eq!(None, q.pop_front());
    assert_eq!(0, q.len());
    assert!(q.is_empty());
}

#[test]
fn extend() {
    let mut q = ArrayQueue::new();

    q.extend_back(&[1, 3, 5, 7, 9, 11, 13, 15]);
    assert_eq!(8, q.len());
    assert_eq!(Some(1), q.front());
    assert_eq!(Some(1), q.pop_front());
    assert_eq!(7, q.len());
    assert_eq!(Some(3), q.front());

    q.extend_back(&[2, 4, 6, 8, 10, 12]);
    assert_eq!(13, q.len());
    assert_eq!(Some(3), q.front());

    assert_eq!(Some(3), q.pop_front());
    assert_eq!(Some(5), q.pop_front());
    assert_eq!(Some(7), q.pop_front());
    assert_eq!(10, q.len());
    assert_eq!(Some(9), q.front());

    q.extend_back(&[20, 40, 60, 80, 100, 120]);
    assert_eq!(16, q.len());
    assert_eq!(Some(9), q.front());

    for n in [9, 11, 13, 15, 2, 4, 6, 8, 10, 12, 20, 40, 60, 80, 100, 120] {
        assert_eq!(Some(n), q.pop_front());
    }

    assert_eq!(None, q.front());
    assert_eq!(None, q.pop_front());
    assert_eq!(0, q.len());
}

#[test]
fn extend_to_capacity() {
    let mut q = ArrayQueue::new();

    q.extend_back(&[1, 2, 3, 4, 5, 6, 7, 8, 9, 10, 11, 12]);
    q.pop_front();
    q.pop_front();
    q.pop_front();

    q.extend_back(&[13, 14, 15, 16]);

    assert_eq!(13, q.len());

    for n in [4, 5, 6, 7, 8, 9, 10, 11, 12, 13, 14, 15, 16] {
        assert_eq!(Some(n), q.pop_front());
    }

    assert_eq!(None, q.front());
    assert_eq!(None, q.pop_front());
    assert_eq!(0, q.len());
}
