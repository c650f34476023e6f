use adbuy_core::campaign_api::find_depth;
use adbuy_core::decimal::{parse_usize, usize_to_text};
use adbuy_core::params::{read_query_string, to_hashmap_from_str, ParamMap, QueryError};

#[test]
fn query_pairs_are_read() {
    let m = to_hashmap_from_str("a=1&b=two").unwrap();
    assert_eq!(m.len(), 2);
    assert_eq!(m.get("a").unwrap(), "1");
    assert_eq!(m.get("b").unwrap(), "two");
    assert!(m.get("c").is_none());
}

#[test]
fn query_empty_pieces_skipped_and_empty_values_kept() {
    let m = to_hashmap_from_str("&&k=&=v&").unwrap();
    assert_eq!(m.len(), 2);
    assert_eq!(m.get("k").unwrap(), "");
    assert_eq!(m.get("").unwrap(), "v");
    assert_eq!(to_hashmap_from_str("").unwrap().len(), 0);
}

#[test]
fn query_later_name_overrides() {
    let m = to_hashmap_from_str("d=1&d=7").unwrap();
    assert_eq!(m.len(), 1);
    assert_eq!(m.get("d").unwrap(), "7");
}

#[test]
fn query_with_three_parts_fails() {
    let e = to_hashmap_from_str("a=1&b=2=3").err().unwrap();
    assert_eq!(e, "param greater than 3");
    assert_eq!(read_query_string("x=1=2&y").err().unwrap(), QueryError::TooManyParts);
}

#[test]
fn query_piece_without_value_is_reported() {
    assert_eq!(read_query_string("a=1&flag").err().unwrap(), QueryError::NoValue);
}

#[test]
fn param_map_insert_replaces() {
    let mut m = ParamMap::new();
    m.insert("x".to_string(), "1".to_string());
    m.insert("y".to_string(), "2".to_string());
    m.insert("x".to_string(), "3".to_string());
    assert_eq!(m.len(), 2);
    assert_eq!(m.get("x").unwrap(), "3");
}

#[test]
fn usize_parsing_follows_from_str() {
    assert_eq!(parse_usize("42"), Some(42));
    assert_eq!(parse_usize("+7"), Some(7));
    assert_eq!(parse_usize("007"), Some(7));
    assert_eq!(parse_usize(""), None);
    assert_eq!(parse_usize("+"), None);
    assert_eq!(parse_usize("-1"), None);
    assert_eq!(parse_usize("1a"), None);
    assert_eq!(parse_usize("18446744073709551615"), Some(usize::MAX));
    assert_eq!(parse_usize("18446744073709551616"), None);
    for s in ["0", "12", "+3", "x", " 1", "99999999999999999999"] {
        assert_eq!(parse_usize(s), s.parse::<usize>().ok());
    }
}

#[test]
fn usize_text_round_trips() {
    for n in [0usize, 5, 10, 99, 100, 123456789, usize::MAX] {
        let s = usize_to_text(n);
        assert_eq!(s, n.to_string());
        assert_eq!(parse_usize(&s), Some(n));
    }
}

#[test]
fn depth_found_in_params() {
    let m = to_hashmap_from_str("mid=x&d=3").unwrap();
    assert_eq!(find_depth(&m), Some(3));
    let m = to_hashmap_from_str("d=three").unwrap();
    assert_eq!(find_depth(&m), None);
    let m = to_hashmap_from_str("x=1").unwrap();
    assert_eq!(find_depth(&m), None);
}
