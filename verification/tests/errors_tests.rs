use adbuy_core::errors::{
    ApiError, Blocking, DatabaseErrorInfo, DatabaseErrorKind, DbError, ErrorResponse,
};

fn text_of(e: &ApiError) -> String {
    match e {
        ApiError::BadRequest(m)
        | ApiError::InternalServerError(m)
        | ApiError::NotFound(m)
        | ApiError::BlockingError(m) => m.clone(),
        _ => String::new(),
    }
}

#[test]
fn responses_by_error() {
    let r = ApiError::BadRequest("bad".to_string()).error_response();
    assert_eq!(r.status, 400);
    assert_eq!(r.body.unwrap().errors(), &vec!["bad".to_string()]);
    let r = ApiError::NotFound("gone".to_string()).error_response();
    assert_eq!(r.status, 404);
    assert_eq!(r.body.unwrap().errors(), &vec!["gone".to_string()]);
    let r = ApiError::ValidationError(vec!["a".to_string(), "b".to_string()]).error_response();
    assert_eq!(r.status, 422);
    assert_eq!(r.body.unwrap().errors(), &vec!["a".to_string(), "b".to_string()]);
    let r = ApiError::Unauthorized("who".to_string()).error_response();
    assert_eq!(r.status, 401);
    assert_eq!(r.body.unwrap().errors().len(), 1);
    for e in [
        ApiError::NotConnected,
        ApiError::InternalServerError("x".to_string()),
        ApiError::PoolError("p".to_string()),
        ApiError::ClientSendRequestError("c".to_string()),
    ] {
        let r = e.error_response();
        assert_eq!(r.status, 500);
        assert!(r.body.is_none());
    }
}

#[test]
fn conversions_into_errors() {
    let e: ApiError = "boom".to_string().into();
    assert!(matches!(e, ApiError::InternalServerError(ref m) if m == "boom"));
    let b: ErrorResponse = vec!["m".to_string()].into();
    assert_eq!(b.errors(), &vec!["m".to_string()]);
    assert_eq!(ErrorResponse::from_message("one").errors(), &vec!["one".to_string()]);
    assert_eq!(text_of(&ApiError::from_couch_message("no db")), "poucherr:no db");
    assert_eq!(text_of(&ApiError::from_payload_debug("Overflow")), "PAYLOAD ERR: Overflow");
    let e = ApiError::from_blocking(Blocking::Failed(ApiError::NotFound("n".to_string())));
    assert!(matches!(e, ApiError::NotFound(ref m) if m == "n"));
    let e = ApiError::from_blocking(Blocking::Canceled);
    assert!(matches!(e, ApiError::BlockingError(ref m) if m == "Thread blocking error"));
    let e = ApiError::from(Blocking::Failed(ApiError::Unauthorized("who".to_string())));
    assert!(matches!(e, ApiError::Unauthorized(ref m) if m == "who"));
    let e: ApiError = Blocking::<ApiError>::Canceled.into();
    assert!(matches!(e, ApiError::BlockingError(ref m) if m == "Thread blocking error"));
}

#[test]
fn database_failures() {
    let unique = |details: Option<&str>| {
        DbError::DatabaseError(
            DatabaseErrorKind::UniqueViolation,
            DatabaseErrorInfo { message: "dup".to_string(), details: details.map(String::from) },
        )
    };
    let e = ApiError::from_database(unique(Some("key exists")));
    assert!(matches!(e, ApiError::BadRequest(ref m) if m == "key exists"));
    let e = ApiError::from_database(unique(None));
    assert!(matches!(e, ApiError::BadRequest(ref m) if m == "dup"));
    let e = ApiError::from_database(DbError::DatabaseError(
        DatabaseErrorKind::ForeignKeyViolation,
        DatabaseErrorInfo { message: "fk".to_string(), details: None },
    ));
    assert!(matches!(e, ApiError::InternalServerError(ref m) if m == "Unknown database error"));
    let cases = [
        (DbError::NotFound, "not found"),
        (DbError::SerializationError, "serialization error"),
        (DbError::RollbackTransaction, "rollback trx"),
        (DbError::QueryBuilderError, "query builder err"),
        (DbError::InvalidCString, "invalid c str"),
        (DbError::DeserializationError, "deser err"),
        (DbError::AlreadyInTransaction, "already in trx"),
        (DbError::Other, "Diesel Error Exhausted"),
    ];
    for (err, text) in cases {
        let e = ApiError::from_database(err);
        assert!(matches!(e, ApiError::NotFound(ref m) if m == text));
    }
}
