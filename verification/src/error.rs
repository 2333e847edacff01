//! The closed set of failures that the client reports, with the two
//! classifications callers branch on: whether a retry may help, and which
//! HTTP status, if any, stands behind the failure.

use vstd::prelude::*;

verus! {

/// Everything that can go wrong between building a client and reading the
/// server's answer.
#[derive(Debug, Clone, PartialEq, Eq)]
pub enum Error {
    /// The transport failed: the client could not be built, the request could
    /// not be sent, or the answer could not be read or decoded. The text
    /// describes the cause.
    Http(String),
    /// The JSON codec rejected a document. The text describes the cause.
    Json(String),
    /// The base URL is not a well-formed absolute URL.
    InvalidUrl(String),
    /// The credentials do not yield a legal header value.
    InvalidCredentials(String),
    /// The server answered 400; the text is the response body.
    BadRequest(String),
    /// The server answered 401.
    Unauthorized(String),
    /// The server answered 404.
    NotFound(String),
    /// The server answered 429.
    RateLimit(String),
    /// The server answered with a status from 500 to 599; the text is the
    /// response body.
    ServerError(u16, String),
    /// The server answered with any other status outside the success class;
    /// the text is the response body.
    UnexpectedStatus(u16, String),
}

/// The mathematical content of an [`Error`]: each text as a sequence of
/// characters.
pub enum ErrorView {
    Http(Seq<char>),
    Json(Seq<char>),
    InvalidUrl(Seq<char>),
    InvalidCredentials(Seq<char>),
    BadRequest(Seq<char>),
    Unauthorized(Seq<char>),
    NotFound(Seq<char>),
    RateLimit(Seq<char>),
    ServerError(u16, Seq<char>),
    UnexpectedStatus(u16, Seq<char>),
}

impl ErrorView {
    /// A failure is worth retrying exactly when it is a transport failure, a
    /// server-side failure or a rate limit.
    pub open spec fn is_retryable(self) -> bool {
        self is Http || self is ServerError || self is RateLimit
    }

    /// The HTTP status behind a failure; `None` for the failures that occur
    /// before any status was received.
    pub open spec fn status_code(self) -> Option<u16> {
        match self {
            ErrorView::BadRequest(_) => Some(400u16),
            ErrorView::Unauthorized(_) => Some(401u16),
            ErrorView::NotFound(_) => Some(404u16),
            ErrorView::RateLimit(_) => Some(429u16),
            ErrorView::ServerError(code, _) => Some(code),
            ErrorView::UnexpectedStatus(code, _) => Some(code),
            ErrorView::Http(_) => None,
            ErrorView::Json(_) => None,
            ErrorView::InvalidUrl(_) => None,
            ErrorView::InvalidCredentials(_) => None,
        }
    }
}

/// Whether an HTTP status is in the success class, 200 to 299.
pub open spec fn is_success_status(code: u16) -> bool {
    200 <= code <= 299
}

/// The failure that a status outside the success class stands for. `body` is
/// the text of the response: it is kept for 400, for 500 to 599 and for the
/// statuses without a name of their own, and dropped for 401, 404 and 429,
/// which carry a fixed message.
pub open spec fn status_error(code: u16, body: Seq<char>) -> ErrorView {
    if code == 400 {
        ErrorView::BadRequest(body)
    } else if code == 401 {
        ErrorView::Unauthorized("Invalid credentials"@)
    } else if code == 404 {
        ErrorView::NotFound("Endpoint not found"@)
    } else if code == 429 {
        ErrorView::RateLimit("Rate limit exceeded"@)
    } else if 500 <= code <= 599 {
        ErrorView::ServerError(code, body)
    } else {
        ErrorView::UnexpectedStatus(code, body)
    }
}

impl View for Error {
    type V = ErrorView;

    open spec fn view(&self) -> ErrorView {
        match *self {
            Error::Http(text) => ErrorView::Http(text@),
            Error::Json(text) => ErrorView::Json(text@),
            Error::InvalidUrl(text) => ErrorView::InvalidUrl(text@),
            Error::InvalidCredentials(text) => ErrorView::InvalidCredentials(text@),
            Error::BadRequest(text) => ErrorView::BadRequest(text@),
            Error::Unauthorized(text) => ErrorView::Unauthorized(text@),
            Error::NotFound(text) => ErrorView::NotFound(text@),
            Error::RateLimit(text) => ErrorView::RateLimit(text@),
            Error::ServerError(code, text) => ErrorView::ServerError(code, text@),
            Error::UnexpectedStatus(code, text) => ErrorView::UnexpectedStatus(code, text@),
        }
    }
}

impl Error {
    /// Maps the status of a response outside the success class, and the text
    /// of its body, to the failure it stands for. A status in the success
    /// class is no failure and is not meant to be passed; it would be reported
    /// as unexpected.
    pub fn from_status(code: u16, body: String) -> (r: Error)
        ensures
            r@ == status_error(code, body@),
    {
        if code == 400 {
            Error::BadRequest(body)
        } else if code == 401 {
            Error::Unauthorized("Invalid credentials".to_string())
        } else if code == 404 {
            Error::NotFound("Endpoint not found".to_string())
        } else if code == 429 {
            Error::RateLimit("Rate limit exceeded".to_string())
        } else if 500 <= code && code <= 599 {
            Error::ServerError(code, body)
        } else {
            Error::UnexpectedStatus(code, body)
        }
    }

    /// Whether repeating the request may succeed. This only classifies: the
    /// client itself never retries.
    pub fn is_retryable(&self) -> (r: bool)
        ensures
            r == self@.is_retryable(),
            r <==> (self is Http || self is ServerError || self is RateLimit),
    {
        match self {
            Error::Http(_) => true,
            Error::ServerError(_, _) => true,
            Error::RateLimit(_) => true,
            _ => false,
        }
    }

    /// The HTTP status that the failure stands for, if it stands for one.
    pub fn status_code(&self) -> (r: Option<u16>)
        ensures
            r == self@.status_code(),
    {
        match self {
            Error::BadRequest(_) => Some(400),
            Error::Unauthorized(_) => Some(401),
            Error::NotFound(_) => Some(404),
            Error::RateLimit(_) => Some(429),
            Error::ServerError(code, _) => Some(*code),
            Error::UnexpectedStatus(code, _) => Some(*code),
            _ => None,
        }
    }
}

/// Decides whether a response with this status carries the created order.
pub fn is_success(code: u16) -> (r: bool)
    ensures
        r == is_success_status(code),
{
    200 <= code && code <= 299
}

/// Every failure made from a status reports that very status.
pub proof fn lemma_status_error_keeps_code(code: u16, body: Seq<char>)
    ensures
        status_error(code, body).status_code() == Some(code),
{
}

/// A failure made from a status is worth retrying exactly when the status is
/// 429 or lies between 500 and 599.
pub proof fn lemma_status_error_retryable(code: u16, body: Seq<char>)
    ensures
        status_error(code, body).is_retryable() <==> (code == 429 || 500 <= code <= 599),
{
}

} // verus!
