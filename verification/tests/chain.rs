use shared_chain::chain::Dll;

#[test]
fn test_fresh_chain_resolves_everywhere() {
    let list = Dll::new(&[5, 6, 7]);
    for (i, expected) in [5, 6, 7].iter().enumerate() {
        let handle = list.ref_at_index(i).expect("index within the chain");
        assert_eq!(handle.resolve(&list), Some(*expected));
    }
    assert!(list.ref_at_index(3).is_none());
    assert!(list.ref_at_index(100).is_none());
}

#[test]
fn test_empty_chain() {
    let mut list = Dll::new(&[]);
    assert!(list.ref_at_index(0).is_none());
    list.drop_after_index(0);
    assert!(list.ref_at_index(0).is_none());
}

#[test]
fn test_truncate_at_head_empties() {
    let mut list = Dll::new(&[9, 8, 7]);
    list.drop_after_index(0);
    assert!(list.ref_at_index(0).is_none());
}

#[test]
fn test_truncate_past_end_is_noop() {
    let mut list = Dll::new(&[1, 2]);
    let h0 = list.ref_at_index(0).unwrap();
    let h1 = list.ref_at_index(1).unwrap();
    list.drop_after_index(2);
    list.drop_after_index(17);
    assert_eq!(h0.resolve(&list), Some(1));
    assert_eq!(h1.resolve(&list), Some(2));
}

#[test]
fn test_truncate_twice_is_like_once() {
    let mut list = Dll::new(&[4, 5, 6, 7]);
    let handles: Vec<_> = (0..4).map(|i| list.ref_at_index(i).unwrap()).collect();
    list.drop_after_index(2);
    list.drop_after_index(2);
    assert_eq!(handles[0].resolve(&list), Some(4));
    assert_eq!(handles[1].resolve(&list), Some(5));
    assert!(handles[2].resolve(&list).is_none());
    assert!(handles[3].resolve(&list).is_none());
    assert!(list.ref_at_index(2).is_none());
}

#[test]
fn test_truncation_scenario() {
    let mut list = Dll::new(&[1, 2, 3, 4]);
    let h2 = list.ref_at_index(2).expect("third node exists");
    let h3 = list.ref_at_index(3).expect("fourth node exists");
    assert_eq!(h2.resolve(&list), Some(3));
    assert_eq!(h3.resolve(&list), Some(4));

    list.drop_after_index(1);

    assert!(h2.resolve(&list).is_none());
    assert!(h3.resolve(&list).is_none());
    let h0 = list.ref_at_index(0).expect("head survives");
    assert_eq!(h0.resolve(&list), Some(1));
    assert!(list.ref_at_index(1).is_none());
}
