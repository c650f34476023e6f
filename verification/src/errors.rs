//! The error type of the services' request handlers, the response each error
//! is answered with, and how failures of the parts they use become errors.

use vstd::prelude::*;
use vstd::string::StringExecFns;

verus! {

/// An error of a request handler.
#[derive(Debug)]
pub enum ApiError {
    NotConnected,
    Disconnected,
    AgentDisconnected,
    BadRequest(String),
    BlockingError(String),
    CacheError(String),
    CannotDecodeJwtToken(String),
    CannotEncodeJwtToken(String),
    InternalServerError(String),
    NotFound(String),
    ParseError(String),
    PoolError(String),
    ValidationError(Vec<String>),
    Unauthorized(String),
    ClientSendRequestError(String),
}

/// What an error says: its variant and its text.
pub ghost enum ApiErrorView {
    NotConnected,
    Disconnected,
    AgentDisconnected,
    BadRequest(Seq<char>),
    BlockingError(Seq<char>),
    CacheError(Seq<char>),
    CannotDecodeJwtToken(Seq<char>),
    CannotEncodeJwtToken(Seq<char>),
    InternalServerError(Seq<char>),
    NotFound(Seq<char>),
    ParseError(Seq<char>),
    PoolError(Seq<char>),
    ValidationError(Seq<Seq<char>>),
    Unauthorized(Seq<char>),
    ClientSendRequestError(Seq<char>),
}

impl View for ApiError {
    type V = ApiErrorView;

    open spec fn view(&self) -> ApiErrorView {
        match self {
            ApiError::NotConnected => ApiErrorView::NotConnected,
            ApiError::Disconnected => ApiErrorView::Disconnected,
            ApiError::AgentDisconnected => ApiErrorView::AgentDisconnected,
            ApiError::BadRequest(m) => ApiErrorView::BadRequest(m@),
            ApiError::BlockingError(m) => ApiErrorView::BlockingError(m@),
            ApiError::CacheError(m) => ApiErrorView::CacheError(m@),
            ApiError::CannotDecodeJwtToken(m) => ApiErrorView::CannotDecodeJwtToken(m@),
            ApiError::CannotEncodeJwtToken(m) => ApiErrorView::CannotEncodeJwtToken(m@),
            ApiError::InternalServerError(m) => ApiErrorView::InternalServerError(m@),
            ApiError::NotFound(m) => ApiErrorView::NotFound(m@),
            ApiError::ParseError(m) => ApiErrorView::ParseError(m@),
            ApiError::PoolError(m) => ApiErrorView::PoolError(m@),
            ApiError::ValidationError(ms) => ApiErrorView::ValidationError(
                ms@.map_values(|s: String| s@),
            ),
            ApiError::Unauthorized(m) => ApiErrorView::Unauthorized(m@),
            ApiError::ClientSendRequestError(m) => ApiErrorView::ClientSendRequestError(m@),
        }
    }
}

/// The body of an error response: user-facing messages.
#[derive(Debug)]
pub struct ErrorResponse {
    errors: Vec<String>,
}

impl ErrorResponse {
    /// The messages.
    pub closed spec fn messages(&self) -> Seq<Seq<char>> {
        self.errors@.map_values(|e: String| e@)
    }

    /// The messages.
    pub fn errors(&self) -> (r: &Vec<String>)
        ensures
            r@.map_values(|e: String| e@) == self.messages(),
    {
        &self.errors
    }

    /// A body holding the one message `error`.
    pub fn from_message(error: &str) -> (r: ErrorResponse)
        ensures
            r.messages() == seq![error@],
    {
        let mut errors = Vec::new();
        errors.push(String::from_str(error));
        let r = ErrorResponse { errors };
        assert(r.messages() =~= seq![error@]);
        r
    }
}

impl From<Vec<String>> for ErrorResponse {
    /// A body holding the given messages.
    fn from(errors: Vec<String>) -> (r: ErrorResponse)
        ensures
            r.messages() == errors@.map_values(|e: String| e@),
    {
        ErrorResponse { errors }
    }
}

impl vstd::std_specs::convert::FromSpecImpl<Vec<String>> for ErrorResponse {
    open spec fn obeys_from_spec() -> bool {
        true
    }

    closed spec fn from_spec(v: Vec<String>) -> ErrorResponse {
        ErrorResponse { errors: v }
    }
}

impl From<String> for ApiError {
    /// A plain error message is an internal server error.
    fn from(error: String) -> (r: ApiError)
        ensures
            r@ == ApiErrorView::InternalServerError(error@),
    {
        ApiError::InternalServerError(error)
    }
}

impl From<Blocking<ApiError>> for ApiError {
    /// Work run on the blocking thread pool that did not succeed: its own
    /// error passes through unchanged, and canceled work is a blocking error.
    fn from(b: Blocking<ApiError>) -> (r: ApiError)
        ensures
            match b {
                Blocking::Failed(e) => r == e,
                Blocking::Canceled => r@ == ApiErrorView::BlockingError("Thread blocking error"@),
            },
    {
        ApiError::from_blocking(b)
    }
}

/// The conversion is described by its own `ensures` above; this spec gives
/// the same mapping, but it is not claimed to be followed value for value
/// (`obeys_from_spec` is false): the canceled case builds a new text, and a
/// text with the same characters is not provably the same value.
impl vstd::std_specs::convert::FromSpecImpl<Blocking<ApiError>> for ApiError {
    open spec fn obeys_from_spec() -> bool {
        false
    }

    open spec fn from_spec(v: Blocking<ApiError>) -> ApiError {
        match v {
            Blocking::Failed(e) => e,
            Blocking::Canceled => ApiError::BlockingError(
                choose|s: String| #[trigger] s.view() == "Thread blocking error"@,
            ),
        }
    }
}

impl vstd::std_specs::convert::FromSpecImpl<String> for ApiError {
    open spec fn obeys_from_spec() -> bool {
        true
    }

    open spec fn from_spec(v: String) -> ApiError {
        ApiError::InternalServerError(v)
    }
}

/// The response to a failed request: status code and, for the errors that
/// explain themselves to the user, a body.
pub struct ErrorReply {
    pub status: u16,
    pub body: Option<ErrorResponse>,
}

/// The status code an error is answered with.
pub open spec fn status_of(e: ApiErrorView) -> u16 {
    match e {
        ApiErrorView::BadRequest(_) => 400,
        ApiErrorView::NotFound(_) => 404,
        ApiErrorView::ValidationError(_) => 422,
        ApiErrorView::Unauthorized(_) => 401,
        _ => 500,
    }
}

/// The messages an error's response body holds, if it has a body.
pub open spec fn messages_of(e: ApiErrorView) -> Option<Seq<Seq<char>>> {
    match e {
        ApiErrorView::BadRequest(m) => Some(seq![m]),
        ApiErrorView::NotFound(m) => Some(seq![m]),
        ApiErrorView::ValidationError(ms) => Some(ms),
        ApiErrorView::Unauthorized(m) => Some(seq![m]),
        _ => None,
    }
}

/// The messages of an optional body.
pub open spec fn body_messages(body: Option<ErrorResponse>) -> Option<Seq<Seq<char>>> {
    match body {
        Some(b) => Some(b.messages()),
        None => None,
    }
}

fn clone_messages(v: &Vec<String>) -> (r: Vec<String>)
    ensures
        r@.map_values(|s: String| s@) == v@.map_values(|s: String| s@),
{
    let mut r: Vec<String> = Vec::new();
    let mut i: usize = 0;
    while i < v.len()
        invariant
            i <= v@.len(),
            r@.len() == i,
            forall|j: int| 0 <= j < i ==> #[trigger] r@[j]@ == v@[j]@,
        decreases v.len() - i,
    {
        r.push(v[i].clone());
        i += 1;
    }
    assert(r@.map_values(|s: String| s@) =~= v@.map_values(|s: String| s@));
    r
}

impl ApiError {
    /// How the error is answered: bad requests with 400, missing things with
    /// 404, invalid input with 422 and unauthorized requests with 401, each
    /// with a body of messages; every other error with a bare 500.
    pub fn error_response(&self) -> (r: ErrorReply)
        ensures
            r.status == status_of(self@),
            body_messages(r.body) == messages_of(self@),
    {
        match self {
            ApiError::BadRequest(error) => ErrorReply {
                status: 400,
                body: Some(ErrorResponse::from_message(error.as_str())),
            },
            ApiError::NotFound(message) => ErrorReply {
                status: 404,
                body: Some(ErrorResponse::from_message(message.as_str())),
            },
            ApiError::ValidationError(errors) => ErrorReply {
                status: 422,
                body: Some(ErrorResponse { errors: clone_messages(errors) }),
            },
            ApiError::Unauthorized(error) => ErrorReply {
                status: 401,
                body: Some(ErrorResponse::from_message(error.as_str())),
            },
            _ => ErrorReply { status: 500, body: None },
        }
    }

    /// A CouchDB failure with `message`.
    pub fn from_couch_message(message: &str) -> (r: ApiError)
        ensures
            r@ == ApiErrorView::InternalServerError("poucherr:"@ + message@),
    {
        let mut m = String::from_str("poucherr:");
        m.append(message);
        ApiError::InternalServerError(m)
    }

    /// A failure reading a request's payload, given as its debug text.
    pub fn from_payload_debug(debug: &str) -> (r: ApiError)
        ensures
            r@ == ApiErrorView::InternalServerError("PAYLOAD ERR: "@ + debug@),
    {
        let mut m = String::from_str("PAYLOAD ERR: ");
        m.append(debug);
        ApiError::InternalServerError(m)
    }

    /// A failure of work run on the blocking thread pool: the work's own error,
    /// or a blocking error when the work was canceled.
    pub fn from_blocking(b: Blocking<ApiError>) -> (r: ApiError)
        ensures
            match b {
                Blocking::Failed(e) => r == e,
                Blocking::Canceled => r@ == ApiErrorView::BlockingError(
                    "Thread blocking error"@,
                ),
            },
    {
        match b {
            Blocking::Failed(e) => e,
            Blocking::Canceled => ApiError::BlockingError(String::from_str("Thread blocking error")),
        }
    }

    /// A failure of the database.
    pub fn from_database(error: DbError) -> (r: ApiError)
        ensures
            r@ == api_error_of_db(error),
    {
        match error {
            DbError::DatabaseError(kind, info) => {
                if let DatabaseErrorKind::UniqueViolation = kind {
                    let message = match info.details {
                        Some(d) => d,
                        None => info.message,
                    };
                    return ApiError::BadRequest(message);
                }
                ApiError::InternalServerError(String::from_str("Unknown database error"))
            },
            DbError::NotFound => ApiError::NotFound(String::from_str("not found")),
            DbError::SerializationError => ApiError::NotFound(
                String::from_str("serialization error"),
            ),
            DbError::RollbackTransaction => ApiError::NotFound(String::from_str("rollback trx")),
            DbError::QueryBuilderError => ApiError::NotFound(
                String::from_str("query builder err"),
            ),
            DbError::InvalidCString => ApiError::NotFound(String::from_str("invalid c str")),
            DbError::DeserializationError => ApiError::NotFound(String::from_str("deser err")),
            DbError::AlreadyInTransaction => ApiError::NotFound(
                String::from_str("already in trx"),
            ),
            DbError::Other => ApiError::NotFound(String::from_str("Diesel Error Exhausted")),
        }
    }
}

/// The outcome of work run on the blocking thread pool that did not succeed.
pub enum Blocking<E> {
    /// The work ran and failed with this error.
    Failed(E),
    /// The work was canceled before it finished.
    Canceled,
}

/// The kind of a failure the database itself reported.
pub enum DatabaseErrorKind {
    UniqueViolation,
    ForeignKeyViolation,
    UnableToSendCommand,
    SerializationFailure,
    Unknown,
}

/// What the database said about a failure it reported.
pub struct DatabaseErrorInfo {
    pub message: String,
    pub details: Option<String>,
}

/// A failure of a database query.
pub enum DbError {
    DatabaseError(DatabaseErrorKind, DatabaseErrorInfo),
    NotFound,
    SerializationError,
    RollbackTransaction,
    QueryBuilderError,
    InvalidCString,
    DeserializationError,
    AlreadyInTransaction,
    Other,
}

/// The handler error a database failure becomes: a unique-key violation is
/// the user's bad request (explained by the details, else the message);
/// other reported failures are internal errors; the rest are "not found".
pub open spec fn api_error_of_db(error: DbError) -> ApiErrorView {
    match error {
        DbError::DatabaseError(kind, info) => match kind {
            DatabaseErrorKind::UniqueViolation => ApiErrorView::BadRequest(
                match info.details {
                    Some(d) => d@,
                    None => info.message@,
                },
            ),
            _ => ApiErrorView::InternalServerError("Unknown database error"@),
        },
        DbError::NotFound => ApiErrorView::NotFound("not found"@),
        DbError::SerializationError => ApiErrorView::NotFound("serialization error"@),
        DbError::RollbackTransaction => ApiErrorView::NotFound("rollback trx"@),
        DbError::QueryBuilderError => ApiErrorView::NotFound("query builder err"@),
        DbError::InvalidCString => ApiErrorView::NotFound("invalid c str"@),
        DbError::DeserializationError => ApiErrorView::NotFound("deser err"@),
        DbError::AlreadyInTransaction => ApiErrorView::NotFound("already in trx"@),
        DbError::Other => ApiErrorView::NotFound("Diesel Error Exhausted"@),
    }
}

/// Whether an error explains itself to the user: a bad request, a missing
/// thing, invalid input or an unauthorized request.
pub open spec fn is_user_facing(e: ApiErrorView) -> bool {
    e is BadRequest || e is NotFound || e is ValidationError || e is Unauthorized
}

/// How failed requests are answered: the errors that explain themselves to
/// the user get a 4xx status (400, 404, 422, 401) and a body with their
/// messages; every other error, a blocking or database failure among them,
/// gets a bare 500 and no body.
pub proof fn law_only_user_errors_are_explained(e: ApiErrorView, r: ErrorReply)
    requires
        r.status == status_of(e),
        body_messages(r.body) == messages_of(e),
    ensures
        is_user_facing(e) <==> (400 <= r.status && r.status < 500),
        is_user_facing(e) <==> r.body is Some,
        !is_user_facing(e) ==> r.status == 500 && r.body is None,
        e matches ApiErrorView::BadRequest(m) ==> r.status == 400 && body_messages(r.body) == Some(seq![m]),
        e matches ApiErrorView::NotFound(m) ==> r.status == 404 && body_messages(r.body) == Some(seq![m]),
        e matches ApiErrorView::Unauthorized(m) ==> r.status == 401 && body_messages(r.body) == Some(seq![m]),
        e matches ApiErrorView::ValidationError(ms) ==> r.status == 422 && body_messages(r.body) == Some(ms),
{
}

} // verus!
