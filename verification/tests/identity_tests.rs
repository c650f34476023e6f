use adbuy_core::errors::ApiError;
use adbuy_core::identity::{
    after_cache_read, after_cache_write, after_database_read, identity_key, initial_click_stored,
    read_identity_reply, store_identity_reply, CacheReply, IdentityStep,
};

fn internal(e: &ApiError) -> Option<String> {
    match e {
        ApiError::InternalServerError(m) => Some(m.clone()),
        _ => None,
    }
}

#[test]
fn identity_keys() {
    assert_eq!(identity_key("Mozilla/5.0", "172.58.38.197"), "Mozilla/5.0:172.58.38.197");
    assert_eq!(identity_key("", "::1"), ":::1");
}

#[test]
fn cache_replies_when_reading() {
    assert_eq!(read_identity_reply(CacheReply::SimpleString("{}".to_string())).unwrap(), "{}");
    match read_identity_reply(CacheReply::Other) {
        Err(ApiError::BadRequest(m)) => assert_eq!(m, "Resp val not simple string"),
        _ => panic!("expected a bad request"),
    }
    let e = read_identity_reply(CacheReply::Failed("Timeout".to_string())).unwrap_err();
    assert_eq!(internal(&e).as_deref(), Some("Timeout"));
    let e = read_identity_reply(CacheReply::Unreachable).unwrap_err();
    assert_eq!(internal(&e).as_deref(), Some("redis err"));
}

#[test]
fn cache_replies_when_storing() {
    assert!(store_identity_reply(CacheReply::SimpleString("OK".to_string())).is_ok());
    assert!(store_identity_reply(CacheReply::Other).is_ok());
    let e = store_identity_reply(CacheReply::Failed("Busy".to_string())).unwrap_err();
    assert_eq!(internal(&e).as_deref(), Some("Busy"));
    let e = store_identity_reply(CacheReply::Unreachable).unwrap_err();
    assert_eq!(internal(&e).as_deref(), Some("redis err"));
}

#[test]
fn returning_visitor_search() {
    assert!(matches!(after_cache_read::<u8>(Ok(4)), IdentityStep::Found(4)));
    assert!(matches!(
        after_cache_read::<u8>(Err(ApiError::NotFound("x".to_string()))),
        IdentityStep::LoadFromDatabase
    ));
    assert!(matches!(after_database_read::<u8>(Ok(5)), IdentityStep::StoreInCache(5)));
    assert!(matches!(
        after_database_read::<u8>(Err(ApiError::NotFound("none".to_string()))),
        IdentityStep::Failed(ApiError::NotFound(_))
    ));
    assert!(matches!(after_cache_write(5u8, Ok(())), IdentityStep::Found(5)));
    assert!(matches!(
        after_cache_write(5u8, Err(ApiError::InternalServerError("redis err".to_string()))),
        IdentityStep::Failed(ApiError::InternalServerError(_))
    ));
}

#[test]
fn first_click_storage_answer() {
    let e = initial_click_stored(Ok(()), Ok(()));
    assert_eq!(internal(&e).as_deref(), Some("testing "));
    let e = initial_click_stored(Err(ApiError::InternalServerError("redis err".to_string())), Ok(()));
    assert_eq!(internal(&e).as_deref(), Some("redis err"));
    let e = initial_click_stored(Ok(()), Err(ApiError::BlockingError("db".to_string())));
    assert!(matches!(e, ApiError::BlockingError(_)));
}
