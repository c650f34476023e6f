use adbuy_core::matrix::{
    campaign_tab_classes, hide_children, margin_depth_indent, remove_matrix,
    sequence_type_classes, void_node, LandingPage, Matrix, MatrixData, MatrixValue, Offer,
    SequenceType,
};

fn node(id: u128, g: usize, i: usize, depth: usize, data: MatrixData) -> Matrix {
    Matrix { value: MatrixValue { id, parent_matrix: None, group_idx: g, item_idx: i, depth, data }, children_groups: vec![] }
}

fn ids(m: &Matrix) -> Vec<Vec<(u128, usize, usize)>> {
    m.children_groups
        .iter()
        .map(|g| g.iter().map(|c| (c.value.id, c.value.group_idx, c.value.item_idx)).collect())
        .collect()
}

fn source_with_children() -> Matrix {
    let mut root = node(1, 0, 0, 0, MatrixData::Source);
    root.children_groups = vec![
        vec![node(10, 0, 0, 1, MatrixData::Void), node(11, 0, 1, 1, MatrixData::Void), node(12, 0, 2, 1, MatrixData::Void)],
        vec![node(20, 1, 0, 1, MatrixData::Void)],
        vec![node(30, 2, 0, 1, MatrixData::Void), node(31, 2, 1, 1, MatrixData::Void)],
    ];
    root
}

#[test]
fn remove_child_renumbers() {
    let mut root = source_with_children();
    root.remove_child(11);
    assert_eq!(ids(&root), vec![vec![(10, 0, 0), (12, 0, 1)], vec![(20, 1, 0)], vec![(30, 2, 0), (31, 2, 1)]]);
    root.remove_child(20);
    assert_eq!(ids(&root), vec![vec![(10, 0, 0), (12, 0, 1)], vec![], vec![(30, 2, 0), (31, 2, 1)]]);
    root.remove_child(999);
    assert_eq!(ids(&root).len(), 3);
}

#[test]
fn add_void_to_group_or_new_group() {
    let mut root = source_with_children();
    root.add_void(1, 21);
    assert_eq!(ids(&root)[1], vec![(20, 1, 0), (21, 1, 1)]);
    assert_eq!(root.children_groups[1][1].value.depth, 1);
    root.add_void(7, 40);
    assert_eq!(ids(&root).len(), 4);
    assert_eq!(ids(&root)[3], vec![(40, 3, 0)]);
    assert!(matches!(root.children_groups[3][0].value.data, MatrixData::Void));
}

fn parent_id(m: &Matrix) -> Option<u128> {
    m.value.parent_matrix.as_ref().map(|p| p.id)
}

#[test]
fn new_places_record_their_parent() {
    let mut root = source_with_children();
    root.add_void(0, 13);
    root.add_void(9, 41);
    assert_eq!(parent_id(&root.children_groups[0][3]), Some(1));
    assert_eq!(parent_id(&root.children_groups[3][0]), Some(1));
    assert!(matches!(root.children_groups[3][0].value.parent_matrix.as_ref().unwrap().data, MatrixData::Source));

    let mut place = node(4, 0, 0, 2, MatrixData::Void);
    place.attach_lander(lander(1), &vec![100]);
    let p = place.children_groups[0][0].value.parent_matrix.as_ref().unwrap();
    assert_eq!((p.id, p.depth), (4, 2));
    assert!(matches!(p.data, MatrixData::LandingPage(ref l) if l.number_of_calls_to_action == 1));

    let mut src = node(1, 0, 0, 0, MatrixData::Source);
    src.children_groups = vec![vec![node(10, 0, 0, 1, MatrixData::Void)]];
    src.ensure_offer_groups(1, &vec![50]);
    assert_eq!(parent_id(&src.children_groups[1][0]), Some(1));
}

#[test]
fn remove_matrix_under_source_drops_group() {
    let root = source_with_children();
    let local = MatrixValue { id: 20, parent_matrix: None, group_idx: 1, item_idx: 0, depth: 1, data: MatrixData::Void };
    let mut parent = Some(root);
    assert!(remove_matrix(SequenceType::Matrix, &local, &mut parent).is_ok());
    let p = parent.unwrap();
    assert_eq!(ids(&p), vec![vec![(10, 0, 0), (11, 0, 1), (12, 0, 2)], vec![(30, 1, 0), (31, 2, 1)]]);
}

#[test]
fn remove_matrix_single_group_clears() {
    let mut root = node(1, 0, 0, 0, MatrixData::Source);
    root.children_groups = vec![vec![node(10, 0, 0, 1, MatrixData::Void)]];
    let local = MatrixValue { id: 10, parent_matrix: None, group_idx: 5, item_idx: 0, depth: 1, data: MatrixData::Void };
    let mut parent = Some(root);
    assert!(remove_matrix(SequenceType::Matrix, &local, &mut parent).is_ok());
    assert!(parent.unwrap().children_groups.is_empty());
}

#[test]
fn remove_matrix_under_lander_drops_node() {
    let mut lp = node(2, 0, 0, 1, MatrixData::Void);
    lp.children_groups = vec![vec![node(5, 0, 0, 2, MatrixData::Void), node(6, 0, 1, 2, MatrixData::Void)]];
    let local = MatrixValue { id: 5, parent_matrix: None, group_idx: 0, item_idx: 0, depth: 2, data: MatrixData::Void };
    let mut parent = Some(lp);
    assert!(remove_matrix(SequenceType::Matrix, &local, &mut parent).is_ok());
    assert_eq!(ids(parent.as_ref().unwrap()), vec![vec![(6, 0, 1)]]);
}

#[test]
fn remove_matrix_other_sequence_types() {
    let local = MatrixValue { id: 11, parent_matrix: None, group_idx: 0, item_idx: 1, depth: 1, data: MatrixData::Void };
    let mut parent = Some(source_with_children());
    assert_eq!(remove_matrix(SequenceType::LandingPageAndOffers, &local, &mut parent), Err("not setup".to_string()));
    assert_eq!(ids(parent.as_ref().unwrap())[0].len(), 3);
    assert!(remove_matrix(SequenceType::OffersOnly, &local, &mut parent).is_ok());
    assert_eq!(ids(parent.as_ref().unwrap())[0], vec![(10, 0, 0), (12, 0, 2)]);
    let mut none: Option<Matrix> = None;
    assert_eq!(remove_matrix(SequenceType::OffersOnly, &local, &mut none), Err("No Parent".to_string()));
    let far = MatrixValue { id: 11, parent_matrix: None, group_idx: 9, item_idx: 0, depth: 1, data: MatrixData::Void };
    assert_eq!(remove_matrix(SequenceType::OffersOnly, &far, &mut parent), Err("No Group Found".to_string()));
}

fn lander(ctas: u8) -> LandingPage {
    LandingPage { landing_page_id: 3, name: "lp".to_string(), url: "http://lp/?d=1".to_string(), weight: 50, number_of_calls_to_action: ctas }
}

#[test]
fn lander_gets_a_group_per_call_to_action() {
    let mut place = node(4, 0, 0, 2, MatrixData::Void);
    place.attach_lander(lander(2), &vec![100, 101]);
    assert!(matches!(place.value.data, MatrixData::LandingPage(_)));
    assert_eq!(ids(&place), vec![vec![(100, 0, 0)], vec![(101, 1, 0)]]);
    assert_eq!(place.children_groups[1][0].value.depth, 3);
}

#[test]
fn source_gets_offer_groups_for_calls_to_action() {
    let mut root = node(1, 0, 0, 0, MatrixData::Source);
    root.children_groups = vec![vec![node(10, 0, 0, 1, MatrixData::Void)], vec![node(20, 1, 0, 1, MatrixData::Void)]];
    root.ensure_offer_groups(3, &vec![50, 51]);
    assert_eq!(ids(&root), vec![vec![(10, 0, 0)], vec![(20, 1, 0)], vec![(50, 2, 0)], vec![(51, 3, 0)]]);
    root.ensure_offer_groups(2, &vec![]);
    assert_eq!(ids(&root).len(), 4);
}

#[test]
fn weights_apply_to_offers_and_landers() {
    let mut m = node(1, 0, 0, 1, MatrixData::Offer(Offer { offer_id: 1, name: "o".to_string(), url: "u".to_string(), weight: 1 }));
    m.apply_weight(70);
    assert!(matches!(m.value.data, MatrixData::Offer(ref o) if o.weight == 70));
    let mut m = node(1, 0, 0, 1, MatrixData::LandingPage(lander(1)));
    m.apply_weight(9);
    assert!(matches!(m.value.data, MatrixData::LandingPage(ref l) if l.weight == 9));
    let mut m = node(1, 0, 0, 0, MatrixData::Source);
    m.apply_weight(9);
    assert!(matches!(m.value.data, MatrixData::Source));
}

#[test]
fn view_helpers() {
    let expected = [0, 0, 5, 10, 20, 25, 30, 35, 40, 45, 50, 50];
    for (d, e) in expected.iter().enumerate() {
        assert_eq!(margin_depth_indent(d), *e);
    }
    assert!(!hide_children(0));
    assert!(hide_children(3));
    let (a, b, c) = sequence_type_classes(SequenceType::Matrix);
    assert_eq!(a, "uk-button uk-button-small");
    assert_eq!(b, "uk-button uk-button-small");
    assert_eq!(c, "uk-button uk-button-small uk-button-success");
    assert_eq!(campaign_tab_classes(true).0, "active-tab uk-active uk-display-block");
    assert_eq!(campaign_tab_classes(false).1, "fa fa-rocket uk-display-block uk-text-center");
    let v = void_node(None, 8, 1, 2, 3);
    assert_eq!((v.value.id, v.value.group_idx, v.value.item_idx, v.value.depth), (8, 1, 2, 3));
    assert!(v.value.parent_matrix.is_none());
}

#[test]
fn matrix_places_take_landers_with_their_depth() {
    let mut place = node(4, 0, 0, 2, MatrixData::Void);
    let mut lp = lander(1);
    lp.url = "https://lp.example/page?a=1".to_string();
    assert!(place.fill_with_lander(lp, &vec![100]));
    match &place.value.data {
        MatrixData::LandingPage(l) => assert_eq!(l.url, "https://lp.example/page?a=1&d=2"),
        _ => panic!("expected a landing page"),
    }
    assert_eq!(ids(&place), vec![vec![(100, 0, 0)]]);
    assert_eq!(place.children_groups[0][0].value.depth, 3);

    let mut other = node(5, 0, 0, 1, MatrixData::Void);
    let mut bad = lander(2);
    bad.url = "not a url".to_string();
    assert!(!other.fill_with_lander(bad, &vec![1, 2]));
    assert!(matches!(other.value.data, MatrixData::Void));
    assert!(other.children_groups.is_empty());
}

#[test]
fn weights_leave_the_parent_copy() {
    let mut m = node(3, 0, 0, 1, MatrixData::Offer(Offer { offer_id: 1, name: "o".to_string(), url: "u".to_string(), weight: 1 }));
    m.value.parent_matrix = Some(Box::new(node(1, 0, 0, 0, MatrixData::Source).value));
    m.apply_weight(40);
    assert_eq!(m.value.parent_matrix.as_ref().map(|p| p.id), Some(1));
}
