//! The error kinds every endpoint can report, and the numeric code of each.

use vstd::prelude::*;

verus! {

/// An error that can be reported to an API client.
///
/// Every error carries a five-digit code. Its leading three digits are the
/// HTTP status the error is answered with, its last two digits tell the
/// errors of one status apart.
pub trait PointercrateError: From<CoreError> {
    /// The five-digit code of this error.
    spec fn code(&self) -> u16;

    fn error_code(&self) -> (code: u16)
        ensures
            code == self.code(),
    ;

    /// The HTTP status of this error: its code without the last two digits.
    fn status_code(&self) -> (status: u16)
        ensures
            status == self.code() / 100,
    {
        self.error_code() / 100
    }
}

/// The errors that are not specific to one part of the API.
#[derive(Debug, Eq, PartialEq, Clone)]
pub enum CoreError {
    /// Generic `400 BAD REQUEST`, code `40000`.
    BadRequest,
    /// `401 UNAUTHORIZED`, code `40100`.
    Unauthorized,
    /// `403 FORBIDDEN`, code `40300`.
    Forbidden,
    /// `404 NOT FOUND`, code `40400`.
    NotFound,
    /// `405 METHOD NOT ALLOWED`, code `40500`.
    MethodNotAllowed,
    /// `409 CONFLICT`, code `40900`: the transaction of a `DELETE` or `PATCH`
    /// was rolled back because the object was modified concurrently.
    Conflict,
    /// `411 LENGTH REQUIRED`, code `41100`: a request of this method needs a
    /// valid `Content-Length` header.
    LengthRequired,
    /// `412 PRECONDITION FAILED`, code `41200`: the `If-Match` header of a
    /// `DELETE` or `PATCH` does not match the object in the database.
    PreconditionFailed,
    /// `413 PAYLOAD TOO LARGE`, code `41300`.
    PayloadTooLarge,
    /// `415 UNSUPPORTED MEDIA TYPE`, code `41500`.
    UnsupportedMediaType {
        /// The media type the request body was expected to have.
        expected: &'static str,
    },
    /// Generic `422 UNPROCESSABLE ENTITY`, code `42200`.
    UnprocessableEntity,
    /// `422 UNPROCESSABLE ENTITY`, code `42207`: the `limit` of a pagination
    /// request is smaller than 1 or greater than 100.
    InvalidPaginationLimit,
    /// `422 UNPROCESSABLE ENTITY`, code `42222`: a URL whose scheme is neither
    /// `http` nor `https`.
    InvalidUrlScheme,
    /// `422 UNPROCESSABLE ENTITY`, code `42223`: a URL that holds
    /// authentication information.
    UrlAuthenticated,
    /// `422 UNPROCESSABLE ENTITY`, code `42225`: a URL that does not lead to a
    /// video.
    InvalidUrlFormat {
        /// A hint as to how the URL is expected to look for its host.
        expected: &'static str,
    },
    /// `422 UNPROCESSABLE ENTITY`, code `42227`: the cursors of a pagination
    /// request exclude each other, so that no row could lie between them.
    AfterSmallerBefore,
    /// `422 UNPROCESSABLE ENTITY`, code `42229`: the request holds fields that
    /// exclude each other.
    MutuallyExclusive,
    /// `428 PRECONDITION REQUIRED`, code `42800`.
    PreconditionRequired,
    /// Generic `500 INTERNAL SERVER ERROR`, code `50000`.
    InternalServerError,
    /// `500 INTERNAL SERVER ERROR`, code `50001`: the server found itself in a
    /// state that should be impossible.
    InvalidInternalStateError {
        /// What was found.
        cause: &'static str,
    },
    /// `500 INTERNAL SERVER ERROR`, code `50003`: a database access failed, or
    /// a row it returned could not be decoded.
    DatabaseError,
    /// `500 INTERNAL SERVER ERROR`, code `50005`: no database connection could
    /// be acquired.
    DatabaseConnectionError,
}

impl CoreError {
    /// The HTTP status that this kind of error is answered with.
    pub open spec fn http_status(self) -> u16 {
        match self {
            CoreError::BadRequest => 400,
            CoreError::Unauthorized => 401,
            CoreError::Forbidden => 403,
            CoreError::NotFound => 404,
            CoreError::MethodNotAllowed => 405,
            CoreError::Conflict => 409,
            CoreError::LengthRequired => 411,
            CoreError::PreconditionFailed => 412,
            CoreError::PayloadTooLarge => 413,
            CoreError::UnsupportedMediaType { .. } => 415,
            CoreError::UnprocessableEntity
            | CoreError::InvalidPaginationLimit
            | CoreError::InvalidUrlScheme
            | CoreError::UrlAuthenticated
            | CoreError::InvalidUrlFormat { .. }
            | CoreError::AfterSmallerBefore
            | CoreError::MutuallyExclusive => 422,
            CoreError::PreconditionRequired => 428,
            CoreError::InternalServerError
            | CoreError::InvalidInternalStateError { .. }
            | CoreError::DatabaseError
            | CoreError::DatabaseConnectionError => 500,
        }
    }

    /// Whether two errors are of the same kind, whatever they carry.
    pub open spec fn same_kind(self, other: CoreError) -> bool {
        match (self, other) {
            (CoreError::UnsupportedMediaType { .. }, CoreError::UnsupportedMediaType { .. }) => true,
            (CoreError::InvalidUrlFormat { .. }, CoreError::InvalidUrlFormat { .. }) => true,
            (
                CoreError::InvalidInternalStateError { .. },
                CoreError::InvalidInternalStateError { .. },
            ) => true,
            _ => self == other,
        }
    }
}

impl PointercrateError for CoreError {
    open spec fn code(&self) -> u16 {
        match self {
            CoreError::BadRequest => 40000,
            CoreError::Unauthorized => 40100,
            CoreError::Forbidden => 40300,
            CoreError::NotFound => 40400,
            CoreError::MethodNotAllowed => 40500,
            CoreError::Conflict => 40900,
            CoreError::LengthRequired => 41100,
            CoreError::PreconditionFailed => 41200,
            CoreError::PayloadTooLarge => 41300,
            CoreError::UnsupportedMediaType { .. } => 41500,
            CoreError::UnprocessableEntity => 42200,
            CoreError::InvalidPaginationLimit => 42207,
            CoreError::InvalidUrlScheme => 42222,
            CoreError::UrlAuthenticated => 42223,
            CoreError::InvalidUrlFormat { .. } => 42225,
            CoreError::AfterSmallerBefore => 42227,
            CoreError::MutuallyExclusive => 42229,
            CoreError::PreconditionRequired => 42800,
            CoreError::InternalServerError => 50000,
            CoreError::InvalidInternalStateError { .. } => 50001,
            CoreError::DatabaseError => 50003,
            CoreError::DatabaseConnectionError => 50005,
        }
    }

    fn error_code(&self) -> (code: u16)
        ensures
            code == self.code(),
    {
        match self {
            CoreError::BadRequest => 40000,
            CoreError::Unauthorized => 40100,
            CoreError::Forbidden => 40300,
            CoreError::NotFound => 40400,
            CoreError::MethodNotAllowed => 40500,
            CoreError::Conflict => 40900,
            CoreError::LengthRequired => 41100,
            CoreError::PreconditionFailed => 41200,
            CoreError::PayloadTooLarge => 41300,
            CoreError::UnsupportedMediaType { .. } => 41500,
            CoreError::UnprocessableEntity => 42200,
            CoreError::InvalidPaginationLimit => 42207,
            CoreError::InvalidUrlScheme => 42222,
            CoreError::UrlAuthenticated => 42223,
            CoreError::InvalidUrlFormat { .. } => 42225,
            CoreError::AfterSmallerBefore => 42227,
            CoreError::MutuallyExclusive => 42229,
            CoreError::PreconditionRequired => 42800,
            CoreError::InternalServerError => 50000,
            CoreError::InvalidInternalStateError { .. } => 50001,
            CoreError::DatabaseError => 50003,
            CoreError::DatabaseConnectionError => 50005,
        }
    }
}

/// The code of an error is made of the HTTP status of its kind and of an
/// offset below 30: the status is the code without its last two digits, and
/// it is a client or a server error status.
pub proof fn lemma_codes_are_http_errors(error: CoreError)
    ensures
        error.code() / 100 == error.http_status(),
        400 <= error.code() / 100 < 600,
        error.code() % 100 < 30,
{
}

/// Each kind of error has a code of its own: two errors with the same code
/// are of the same kind, and errors of the same kind have the same code.
pub proof fn lemma_codes_tell_kinds_apart(one: CoreError, other: CoreError)
    ensures
        one.code() == other.code() <==> one.same_kind(other),
{
}

} // verus!
