use adbuy_core::pouch_rows::{
    all_docs_entry, changes_answer, option_edits, query_entry, FeedKind, ResultRow, RowEntry,
    RowValue,
};

fn row(
    has_error: Option<bool>,
    value: Option<(bool, Option<u32>)>,
    id: Option<Option<&str>>,
    doc: Option<&'static str>,
) -> ResultRow<u32, &'static str> {
    ResultRow {
        has_error,
        value: value.map(|(deleted, rev)| RowValue { deleted, rev }),
        id: id.map(|i| i.map(|s| s.to_string())),
        doc,
    }
}

fn describe(e: RowEntry<u32, &'static str>) -> String {
    match e {
        RowEntry::Missing => "missing".to_string(),
        RowEntry::Deleted { id, rev } => format!("deleted {} {}", id, rev),
        RowEntry::Document(d) => format!("doc {}", d),
    }
}

#[test]
fn all_docs_rows_are_classified() {
    let live = row(Some(false), Some((false, Some(1))), Some(Some("a")), Some("A"));
    assert_eq!(describe(all_docs_entry(live)), "doc A");
    let gone = row(Some(false), Some((true, Some(7))), Some(Some("b")), None);
    assert_eq!(describe(all_docs_entry(gone)), "deleted b 7");
    let error = row(Some(true), Some((false, Some(1))), Some(Some("a")), Some("A"));
    assert_eq!(describe(all_docs_entry(error)), "missing");
    let unknown = row(None, Some((false, Some(1))), Some(Some("a")), Some("A"));
    assert_eq!(describe(all_docs_entry(unknown)), "missing");
    let no_value = row(Some(false), None, Some(Some("a")), Some("A"));
    assert_eq!(describe(all_docs_entry(no_value)), "missing");
    let deleted_without_rev = row(Some(false), Some((true, None)), Some(Some("b")), Some("B"));
    assert_eq!(describe(all_docs_entry(deleted_without_rev)), "missing");
    let deleted_odd_id = row(Some(false), Some((true, Some(3))), Some(None), None);
    assert_eq!(describe(all_docs_entry(deleted_odd_id)), "missing");
    let no_doc = row(Some(false), Some((false, Some(1))), Some(Some("a")), None);
    assert_eq!(describe(all_docs_entry(no_doc)), "missing");
}

#[test]
fn query_rows_need_a_clean_doc() {
    assert_eq!(query_entry(row(Some(false), None, None, Some("A"))), Some("A"));
    assert_eq!(query_entry(row(Some(true), None, None, Some("A"))), None);
    assert_eq!(query_entry(row(None, None, None, Some("A"))), None);
    assert_eq!(query_entry(row(Some(false), None, None, None)), None);
}

#[test]
fn changes_answers_need_results_and_last_seq() {
    assert_eq!(changes_answer(Some(vec![1, 2]), Some(9)), Ok((vec![1, 2], 9)));
    assert_eq!(changes_answer::<Vec<u8>, u8>(None, Some(9)), Err("Failed reading results array!"));
    assert_eq!(changes_answer::<Vec<u8>, u8>(None, None), Err("Failed reading results array!"));
    assert_eq!(changes_answer::<Vec<u8>, u8>(Some(vec![]), None), Err("Failed reading last_seq!"));
}

#[test]
fn feed_options() {
    let e = option_edits(FeedKind::Changes, true, Some(5), true);
    assert_eq!((e.merge_query_params, e.since, e.live, e.retry, e.binary), (true, Some(5), true, false, true));
    let e = option_edits(FeedKind::Changes, false, Some(5), false);
    assert_eq!((e.merge_query_params, e.since, e.live, e.binary), (false, None, true, true));
    let e = option_edits(FeedKind::ChangesOnce, true, Some(5), true);
    assert_eq!((e.since, e.live, e.retry, e.binary), (Some(5), false, false, false));
    let e = option_edits(FeedKind::Replicate, true, None::<u8>, true);
    assert_eq!((e.since, e.live, e.retry, e.binary), (None, true, true, false));
    let e = option_edits(FeedKind::Replicate, false, Some(1), false);
    assert_eq!((e.since, e.live, e.retry), (None, true, false));
    let e = option_edits(FeedKind::ReplicateOnce, true, Some(2), true);
    assert_eq!((e.since, e.live, e.retry, e.binary), (Some(2), false, false, false));
    let e = option_edits(FeedKind::AllDocs, true, Some(3), true);
    assert_eq!((e.merge_query_params, e.since, e.live, e.retry, e.binary), (false, None, false, false, true));
    let e = option_edits(FeedKind::Query, false, None::<u8>, false);
    assert_eq!((e.merge_query_params, e.since, e.live, e.retry, e.binary), (false, None, false, false, true));
}
