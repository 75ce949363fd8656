use ralarm::EvictingQue;

#[test]
fn evicts_old_elements() {
    let mut que = EvictingQue::<i32>::from(([1, 2, 3], 3));

    assert_eq!(que.push(100), Some(1));

    assert_eq!(que.push(100), Some(2));
    assert_eq!(que.push(100), Some(3));
}

#[test]
fn does_not_evict_until_capacity() {
    let mut que = EvictingQue::<i32>::from(([1, 2, 3], 5));

    assert!(que.push(100).is_none());

    assert!(que.push(100).is_none());
    assert!(que.push(100).is_some());
}

#[test]
fn should_clip_array_from_back_if_capacity_extends_length() {
    let mut que = EvictingQue::<i32>::from(([1, 2, 3], 2));

    assert_eq!(que.push(100), Some(2));
    assert_eq!(que.push(100), Some(3));
}

#[test]
fn should_iterate_through_elements() {
    let mut que = EvictingQue::from(([1, 2, 3, 4, 5], 4));
    que.push(6);

    let mut elems = Vec::<i32>::new();

    let mut i: usize = 0;
    while i < que.len() {
        elems.push(*que.get(i));
        i += 1;
    }

    assert_eq!(elems, vec![3, 4, 5, 6])
}

#[test]
fn internal_should_never_change_capacity() {
    let capacity: usize = 5;
    let mut que = EvictingQue::<i32>::new(capacity);

    for i in 0..1_000 {
        que.push(i);

        assert_eq!(que.capacity(), capacity)
    }
}

#[test]
fn fifo_eviction_after_capacity_plus_one_pushes() {
    let capacity: usize = 3;
    let mut que = EvictingQue::<i32>::new(capacity);

    assert_eq!(que.push(10), None);
    assert_eq!(que.push(20), None);
    assert_eq!(que.push(30), None);
    assert_eq!(que.push(40), Some(10));
    assert_eq!(que.len(), capacity);
}

#[test]
fn len_reports_occupancy() {
    let mut que = EvictingQue::<i32>::new(2);
    assert_eq!(que.len(), 0);
    que.push(1);
    assert_eq!(que.len(), 1);
    que.push(2);
    assert_eq!(que.len(), 2);
    que.push(3);
    assert_eq!(que.len(), 2);
}
