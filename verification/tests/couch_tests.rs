use adbuy_core::couch::{
    couch_path_of_request, insert_visit_outcome, reply_succeeded, user_not_created, insert_visit_url, new_user_fields, new_user_url,
    remote_visits_url, restore_visit_url, security_document_path, upsert_visit_outcome,
    upsert_visit_url, user_document_path, CouchSecurity, CouchUser, CouchUserDetails,
    COUCH_APP_URI,
};
use adbuy_core::errors::ApiError;
use adbuy_core::params::to_hashmap_from_str;
use adbuy_core::text::slim_account_id;

#[test]
fn couch_user_document() {
    let u = CouchUser::new("alice".to_string(), "pw".to_string());
    assert_eq!(u._id, "org.couchdb.user:alice");
    assert_eq!(u.name, "alice");
    assert_eq!(u.password, "pw");
    assert!(u.roles.is_empty());
    assert_eq!(u._type, "user");
}

#[test]
fn security_document_for_user() {
    let s = CouchSecurity::for_user("bob".to_string());
    assert!(s.admins.names.is_empty() && s.admins.roles.is_empty());
    assert_eq!(s.members.names, vec!["bob".to_string()]);
    assert!(s.members.roles.is_empty());
    let d = CouchSecurity::default();
    assert!(d.members.names.is_empty());
}

#[test]
fn slim_account_id_drops_dashes() {
    assert_eq!(
        slim_account_id("550e8400-e29b-41d4-a716-446655440000"),
        "550e8400e29b41d4a716446655440000"
    );
    assert_eq!(slim_account_id("---"), "");
    assert_eq!(slim_account_id("abc"), "abc");
}

#[test]
fn user_details_from_account() {
    let d = CouchUserDetails::create("ab-cd", |s: &str| format!("h({})", s));
    assert_eq!(d.username, "abcd");
    assert_eq!(d.database_name, "abcd");
    assert_eq!(d.password, "h(abcd)");
}

#[test]
fn new_user_url_matches_couch_app_request() {
    let d = CouchUserDetails {
        username: "testusername".to_string(),
        password: "testadsfsdf".to_string(),
        database_name: "testb".to_string(),
    };
    let url = new_user_url(&d);
    assert_eq!(
        url,
        format!("{}new_user?username=testusername&password=testadsfsdf&database_name=testb", COUCH_APP_URI)
    );
    // what the couch app reads back from that query
    let query = url.split('?').nth(1).unwrap();
    let params = to_hashmap_from_str(query).unwrap();
    let (u, p, db) = new_user_fields(&params);
    assert_eq!((u.as_str(), p.as_str(), db.as_str()), ("testusername", "testadsfsdf", "testb"));
}

#[test]
fn couch_app_addresses() {
    assert_eq!(
        restore_visit_url("abc", "17"),
        "http://couch_app:9000/restore_visit?db_name=abc&visit_id=17"
    );
    assert_eq!(insert_visit_url("abc"), "http://couch_app:9000/insert_visit?db_name=abc");
    assert_eq!(upsert_visit_url("abc"), "http://couch_app:9000/upsert_visit?db_name=abc");
    assert_eq!(user_document_path("x"), "/_users/org.couchdb.user:x");
    assert_eq!(security_document_path("db1"), "/db1/_security");
    assert_eq!(remote_visits_url("abcd"), "http://127.0.0.1:8081/visits/abcd");
}

#[test]
fn proxy_path_drops_visits_segments() {
    assert_eq!(couch_path_of_request("/visits/abcd/_changes"), "/abcd/_changes");
    assert_eq!(couch_path_of_request("/visits/visits/x"), "/x");
    assert_eq!(couch_path_of_request("/a/b"), "/a/b");
    assert_eq!(couch_path_of_request("/visit"), "/visit");
    assert_eq!(couch_path_of_request(""), "");
    for p in ["/visits", "x/visitsy/visits/visits", "//visitss"] {
        assert_eq!(couch_path_of_request(p), p.replace("/visits", ""));
    }
}

#[test]
fn visit_request_outcomes() {
    assert!(insert_visit_outcome(Some(201)).is_ok());
    match insert_visit_outcome(Some(500)) {
        Err(ApiError::ClientSendRequestError(m)) => assert_eq!(m, "Err :G^XXXXXX4"),
        _ => panic!("unexpected"),
    }
    match insert_visit_outcome(None) {
        Err(ApiError::ClientSendRequestError(m)) => assert_eq!(m, "Err :G^$T44"),
        _ => panic!("unexpected"),
    }
    assert!(upsert_visit_outcome(Some(500)).is_ok());
    assert!(upsert_visit_outcome(None).is_err());
}

#[test]
fn couchdb_reply_statuses() {
    assert!(reply_succeeded(200));
    assert!(reply_succeeded(201));
    assert!(reply_succeeded(299));
    assert!(!reply_succeeded(199));
    assert!(!reply_succeeded(300));
    assert!(!reply_succeeded(409));
    assert_eq!(
        user_not_created("Object {\"error\": String(\"conflict\")}"),
        "User Not Created:Object {\"error\": String(\"conflict\")}"
    );
}
