use ralarm::TSData;

#[test]
fn internal_from_iter_should_work() {
    let data = [
        (1, Some(12.0)),
        (6, Some(10.0)),
        (3, Some(2.1)),
        (2, Some(19.2)),
    ];
    let ts_data = TSData::from_pairs(data.to_vec());

    assert_eq!(ts_data.tss, [1, 2, 3, 6]);
    assert_eq!(
        ts_data.vals,
        [Some(12.0), Some(19.2), Some(2.1), Some(10.0)]
    );
}

#[test]
fn sort_keeps_values_with_their_timestamps() {
    let data = vec![(5, "e"), (1, "a"), (4, "d"), (2, "b"), (3, "c")];
    let sorted = ralarm::sort_pairs_by_ts(data);
    assert_eq!(sorted, vec![(1, "a"), (2, "b"), (3, "c"), (4, "d"), (5, "e")]);
}

#[test]
fn from_iters_accepts_matching_lengths() {
    let ts_data = TSData::from_iters(vec![1, 2, 3], vec![Some(1.0), None, Some(3.0)]).unwrap();
    assert_eq!(ts_data.tss, [1, 2, 3]);
    assert_eq!(ts_data.vals, [Some(1.0), None, Some(3.0)]);
}

#[test]
fn from_iters_rejects_mismatched_lengths() {
    let r = TSData::<Option<f64>>::from_iters(vec![1, 2], vec![Some(1.0)]);
    assert!(r.is_err());
}
