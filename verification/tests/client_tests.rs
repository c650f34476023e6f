use adbuy_core::auth::{Auth, AuthDecision};
use adbuy_core::database::{self, version};
use adbuy_core::pouch::{self, PouchDB, PouchDBOrStringRef};

#[test]
fn pouch_handles() {
    let db = PouchDB::new("abcd".to_string());
    assert_eq!(db.name(), "abcd");
    assert_eq!(db.describe(), "PouchDB abcd");
    match PouchDBOrStringRef::from(&db) {
        PouchDBOrStringRef::PouchDB(d) => assert_eq!(d.name(), "abcd"),
        _ => panic!("unexpected"),
    }
    match PouchDBOrStringRef::from("http://x/db") {
        PouchDBOrStringRef::String(s) => assert_eq!(s, "http://x/db"),
        _ => panic!("unexpected"),
    }
}

#[test]
fn database_info_defaults() {
    let i = pouch::DatabaseInfo::new("n".to_string());
    assert_eq!((i.doc_count, i.update_seq, i.auto_compaction), (0, 0, false));
    assert_eq!((i.db_name.as_str(), i.adapter.as_str(), i.idb_attachment_format.as_str()), ("n", "", ""));
    let i = database::DatabaseInfo::new("slim".to_string());
    assert_eq!(i.db_name, "slim");
    assert_eq!(i.adapter, "unknown");
    assert_eq!(i.idb_attachment_format, "unknown");
    assert_eq!((i.doc_count, i.update_seq, i.auto_compaction), (0, 0, false));
    assert_eq!(version(), "0.1.0");
}

#[test]
fn login_guard() {
    let m = Auth.new_transform(5u32);
    assert_eq!(*m.service(), 5);
    assert_eq!(m.decide(true), AuthDecision::Forward);
    assert_eq!(m.decide(false), AuthDecision::RedirectToLogin);
}
