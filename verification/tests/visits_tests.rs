use adbuy_core::visits::sync_visits;

#[test]
fn all_visits_without_a_time() {
    let v = vec![(5i64, "a"), (1, "b"), (9, "c")];
    assert_eq!(sync_visits(v.clone(), None), v);
}

#[test]
fn only_newer_visits_in_order() {
    let v = vec![(5i64, "a"), (1, "b"), (9, "c"), (7, "d"), (7, "e")];
    assert_eq!(sync_visits(v.clone(), Some(5)), vec![(9, "c"), (7, "d"), (7, "e")]);
    assert_eq!(sync_visits(v.clone(), Some(9)), vec![]);
    assert_eq!(sync_visits(v, Some(-1)).len(), 5);
    assert_eq!(sync_visits(Vec::<(i64, u8)>::new(), Some(0)), vec![]);
}
