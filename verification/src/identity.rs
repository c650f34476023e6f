//! Click identities: what the campaign server remembers of a visitor (by
//! user agent and address) between the first click and the clicks that
//! follow. They are kept in the cache server and, behind it, the database;
//! the requests are made by the server, and what their replies mean is
//! decided here.

use vstd::prelude::*;
use vstd::string::StringExecFns;
use crate::errors::{ApiError, ApiErrorView};

verus! {

/// The key of a visitor's click identity: the user agent, a colon and the
/// visitor's address.
pub fn identity_key(user_agent: &str, ip: &str) -> (k: String)
    ensures
        k@ == user_agent@ + ":"@ + ip@,
{
    let mut k = String::from_str(user_agent);
    k.append(":");
    k.append(ip);
    k
}

/// A reply of the cache server.
pub enum CacheReply {
    /// A simple string.
    SimpleString(String),
    /// Any other value.
    Other,
    /// The server answered with an error, given as its debug text.
    Failed(String),
    /// The request never reached the server.
    Unreachable,
}

/// The cache server's reply to reading an identity: its stored text, or
/// the error the reply means.
pub fn read_identity_reply(reply: CacheReply) -> (r: Result<String, ApiError>)
    ensures
        match reply {
            CacheReply::SimpleString(data) => r matches Ok(d) && d@ == data@,
            CacheReply::Other => r matches Err(e) && e@ == ApiErrorView::BadRequest(
                "Resp val not simple string"@,
            ),
            CacheReply::Failed(debug) => r matches Err(e) && e@
                == ApiErrorView::InternalServerError(debug@),
            CacheReply::Unreachable => r matches Err(e) && e@ == ApiErrorView::InternalServerError(
                "redis err"@,
            ),
        },
{
    match reply {
        CacheReply::SimpleString(data) => Ok(data),
        CacheReply::Other => Err(ApiError::BadRequest(String::from_str("Resp val not simple string"))),
        CacheReply::Failed(debug) => Err(ApiError::InternalServerError(debug)),
        CacheReply::Unreachable => Err(ApiError::InternalServerError(String::from_str("redis err"))),
    }
}

/// The cache server's reply to storing an identity: any value means it was
/// stored.
pub fn store_identity_reply(reply: CacheReply) -> (r: Result<(), ApiError>)
    ensures
        match reply {
            CacheReply::SimpleString(_) | CacheReply::Other => r is Ok,
            CacheReply::Failed(debug) => r matches Err(e) && e@
                == ApiErrorView::InternalServerError(debug@),
            CacheReply::Unreachable => r matches Err(e) && e@ == ApiErrorView::InternalServerError(
                "redis err"@,
            ),
        },
{
    match reply {
        CacheReply::SimpleString(_) => Ok(()),
        CacheReply::Other => Ok(()),
        CacheReply::Failed(debug) => Err(ApiError::InternalServerError(debug)),
        CacheReply::Unreachable => Err(ApiError::InternalServerError(String::from_str("redis err"))),
    }
}

/// The next step of finding a returning visitor's identity.
pub enum IdentityStep<I> {
    /// Read it from the database, under the identity key.
    LoadFromDatabase,
    /// Store what the database gave in the cache server.
    StoreInCache(I),
    /// The identity is found.
    Found(I),
    /// The search failed with this error.
    Failed(ApiError),
}

/// After reading the cache server: what it held, or, on any failure, a
/// read of the database.
pub fn after_cache_read<I>(read: Result<I, ApiError>) -> (s: IdentityStep<I>)
    ensures
        match read {
            Ok(i) => s == IdentityStep::<I>::Found(i),
            Err(_) => s is LoadFromDatabase,
        },
{
    match read {
        Ok(i) => IdentityStep::Found(i),
        Err(_) => IdentityStep::LoadFromDatabase,
    }
}

/// After reading the database: store what it gave in the cache server, or
/// fail with its error.
pub fn after_database_read<I>(read: Result<I, ApiError>) -> (s: IdentityStep<I>)
    ensures
        match read {
            Ok(i) => s == IdentityStep::<I>::StoreInCache(i),
            Err(e) => s == IdentityStep::<I>::Failed(e),
        },
{
    match read {
        Ok(i) => IdentityStep::StoreInCache(i),
        Err(e) => IdentityStep::Failed(e),
    }
}

/// After storing the identity read from the database in the cache server:
/// found, unless storing failed.
pub fn after_cache_write<I>(identity: I, written: Result<(), ApiError>) -> (s: IdentityStep<I>)
    ensures
        match written {
            Ok(_) => s == IdentityStep::<I>::Found(identity),
            Err(e) => s == IdentityStep::<I>::Failed(e),
        },
{
    match written {
        Ok(_) => IdentityStep::Found(identity),
        Err(e) => IdentityStep::Failed(e),
    }
}

/// The answer to storing a first click, after it was written to the cache
/// server and then to the database: the first failure, and otherwise the
/// server's placeholder error "testing " (no redirect is answered yet).
pub fn initial_click_stored(
    cache_write: Result<(), ApiError>,
    database_write: Result<(), ApiError>,
) -> (e: ApiError)
    ensures
        match (cache_write, database_write) {
            (Err(c), _) => e == c,
            (Ok(_), Err(d)) => e == d,
            (Ok(_), Ok(_)) => e@ == ApiErrorView::InternalServerError("testing "@),
        },
{
    match cache_write {
        Err(c) => c,
        Ok(_) => match database_write {
            Err(d) => d,
            Ok(_) => ApiError::InternalServerError(String::from_str("testing ")),
        },
    }
}

} // verus!
