//! The envelope of every API answer, and the errors a handler can answer with.

use vstd::prelude::*;

verus! {

/// HTTP status codes used by the API.
pub const STATUS_OK: u16 = 200;
pub const STATUS_CREATED: u16 = 201;
pub const STATUS_ACCEPTED: u16 = 202;
pub const STATUS_BAD_REQUEST: u16 = 400;
pub const STATUS_UNAUTHORIZED: u16 = 401;
pub const STATUS_FORBIDDEN: u16 = 403;
pub const STATUS_NOT_FOUND: u16 = 404;
pub const STATUS_CONFLICT: u16 = 409;
pub const STATUS_INTERNAL_SERVER_ERROR: u16 = 500;
pub const STATUS_SERVICE_UNAVAILABLE: u16 = 503;

/// A successful answer: the status it is sent with, a message and the data.
pub struct ApiResponse<T> {
    pub status: u16,
    pub message: String,
    pub success: bool,
    pub data: T,
}

impl<T> ApiResponse<T> {
    /// A successful answer with the given status.
    pub fn with_status(status: u16, data: T, message: &str) -> (r: Self)
        ensures
            r.status == status,
            r.message@ == message@,
            r.success,
            r.data == data,
    {
        ApiResponse { status, message: String::from_str(message), success: true, data }
    }

    /// A successful answer with status 200.
    pub fn ok(data: T, message: &str) -> (r: Self)
        ensures
            r.status == STATUS_OK,
            r.message@ == message@,
            r.success,
            r.data == data,
    {
        Self::with_status(STATUS_OK, data, message)
    }

    /// A successful answer with status 201.
    pub fn created(data: T, message: &str) -> (r: Self)
        ensures
            r.status == STATUS_CREATED,
            r.message@ == message@,
            r.success,
            r.data == data,
    {
        Self::with_status(STATUS_CREATED, data, message)
    }

    /// A successful answer with status 202.
    pub fn accepted(data: T, message: &str) -> (r: Self)
        ensures
            r.status == STATUS_ACCEPTED,
            r.message@ == message@,
            r.success,
            r.data == data,
    {
        Self::with_status(STATUS_ACCEPTED, data, message)
    }
}

/// A failed answer.  `Internal` carries the text of the underlying error,
/// which is logged and never shown to the client.
#[derive(Debug)]
pub enum ApiError {
    BadRequest(String),
    NotFound(String),
    Unauthorized(String),
    Forbidden(String),
    Conflict(String),
    Internal(String),
}

/// The kind of an [`ApiError`], without its text.
#[derive(Debug, Clone, Copy, PartialEq, Eq, Structural)]
pub enum ApiErrorKind {
    BadRequest,
    NotFound,
    Unauthorized,
    Forbidden,
    Conflict,
    Internal,
}

impl ApiError {
    /// The kind of this error.
    pub open spec fn kind(&self) -> ApiErrorKind {
        match self {
            ApiError::BadRequest(_) => ApiErrorKind::BadRequest,
            ApiError::NotFound(_) => ApiErrorKind::NotFound,
            ApiError::Unauthorized(_) => ApiErrorKind::Unauthorized,
            ApiError::Forbidden(_) => ApiErrorKind::Forbidden,
            ApiError::Conflict(_) => ApiErrorKind::Conflict,
            ApiError::Internal(_) => ApiErrorKind::Internal,
        }
    }

    /// The text carried by this error.
    pub open spec fn text(&self) -> Seq<char> {
        match self {
            ApiError::BadRequest(m) => m@,
            ApiError::NotFound(m) => m@,
            ApiError::Unauthorized(m) => m@,
            ApiError::Forbidden(m) => m@,
            ApiError::Conflict(m) => m@,
            ApiError::Internal(m) => m@,
        }
    }

    /// The error and its text as plain values, for contracts.
    pub open spec fn spec_view(&self) -> (ApiErrorKind, Seq<char>) {
        (self.kind(), self.text())
    }

    pub fn bad_request(message: String) -> (e: Self)
        ensures
            e.kind() == ApiErrorKind::BadRequest,
            e.text() == message@,
    {
        ApiError::BadRequest(message)
    }

    pub fn not_found(message: String) -> (e: Self)
        ensures
            e.kind() == ApiErrorKind::NotFound,
            e.text() == message@,
    {
        ApiError::NotFound(message)
    }

    pub fn unauthorized(message: String) -> (e: Self)
        ensures
            e.kind() == ApiErrorKind::Unauthorized,
            e.text() == message@,
    {
        ApiError::Unauthorized(message)
    }

    pub fn forbidden(message: String) -> (e: Self)
        ensures
            e.kind() == ApiErrorKind::Forbidden,
            e.text() == message@,
    {
        ApiError::Forbidden(message)
    }

    pub fn conflict(message: String) -> (e: Self)
        ensures
            e.kind() == ApiErrorKind::Conflict,
            e.text() == message@,
    {
        ApiError::Conflict(message)
    }

    /// An internal error; `error` is the text of the failure behind it.
    pub fn internal(error: String) -> (e: Self)
        ensures
            e.kind() == ApiErrorKind::Internal,
            e.text() == error@,
    {
        ApiError::Internal(error)
    }

    /// The kind of this error, as an executable value.
    pub fn error_kind(&self) -> (k: ApiErrorKind)
        ensures
            k == self.kind(),
    {
        match self {
            ApiError::BadRequest(_) => ApiErrorKind::BadRequest,
            ApiError::NotFound(_) => ApiErrorKind::NotFound,
            ApiError::Unauthorized(_) => ApiErrorKind::Unauthorized,
            ApiError::Forbidden(_) => ApiErrorKind::Forbidden,
            ApiError::Conflict(_) => ApiErrorKind::Conflict,
            ApiError::Internal(_) => ApiErrorKind::Internal,
        }
    }

    /// The HTTP status this error is answered with.
    pub fn status_code(&self) -> (s: u16)
        ensures
            s == status_of(self.kind()),
    {
        match self {
            ApiError::BadRequest(_) => STATUS_BAD_REQUEST,
            ApiError::NotFound(_) => STATUS_NOT_FOUND,
            ApiError::Unauthorized(_) => STATUS_UNAUTHORIZED,
            ApiError::Forbidden(_) => STATUS_FORBIDDEN,
            ApiError::Conflict(_) => STATUS_CONFLICT,
            ApiError::Internal(_) => STATUS_INTERNAL_SERVER_ERROR,
        }
    }

    /// The error's own text, as its `Display` shows it.
    pub fn message(&self) -> (m: String)
        ensures
            m@ == self.text(),
    {
        match self {
            ApiError::BadRequest(m) => m.clone(),
            ApiError::NotFound(m) => m.clone(),
            ApiError::Unauthorized(m) => m.clone(),
            ApiError::Forbidden(m) => m.clone(),
            ApiError::Conflict(m) => m.clone(),
            ApiError::Internal(m) => m.clone(),
        }
    }

    /// The message sent to the client: the error's text, except for an
    /// internal error, whose details stay in the log.
    pub fn public_message(&self) -> (m: String)
        ensures
            m@ == public_text(self.kind(), self.text()),
    {
        match self {
            ApiError::Internal(_) => String::from_str("Internal server error"),
            _ => self.message(),
        }
    }
}

/// The status each kind of error is answered with.
pub open spec fn status_of(k: ApiErrorKind) -> u16 {
    match k {
        ApiErrorKind::BadRequest => STATUS_BAD_REQUEST,
        ApiErrorKind::NotFound => STATUS_NOT_FOUND,
        ApiErrorKind::Unauthorized => STATUS_UNAUTHORIZED,
        ApiErrorKind::Forbidden => STATUS_FORBIDDEN,
        ApiErrorKind::Conflict => STATUS_CONFLICT,
        ApiErrorKind::Internal => STATUS_INTERNAL_SERVER_ERROR,
    }
}

/// The text a client sees for an error of kind `k` carrying `text`.
pub open spec fn public_text(k: ApiErrorKind, text: Seq<char>) -> Seq<char> {
    if k == ApiErrorKind::Internal {
        "Internal server error"@
    } else {
        text
    }
}

} // verus!

verus! {

/// Each kind of error is answered with its HTTP status (400, 404, 401, 403,
/// 409, 500), and a client sees the error's own text, except for an
/// internal error, whose text stays in the log.
pub proof fn law_error_answers(k: ApiErrorKind, text: Seq<char>)
    ensures
        status_of(ApiErrorKind::BadRequest) == 400,
        status_of(ApiErrorKind::NotFound) == 404,
        status_of(ApiErrorKind::Unauthorized) == 401,
        status_of(ApiErrorKind::Forbidden) == 403,
        status_of(ApiErrorKind::Conflict) == 409,
        status_of(ApiErrorKind::Internal) == 500,
        public_text(ApiErrorKind::Internal, text) == "Internal server error"@,
        k != ApiErrorKind::Internal ==> public_text(k, text) == text,
{
}

} // verus!
