//! Commonly used rejections and how each becomes a response.
use vstd::prelude::*;
use vstd::string::*;

verus! {

/// Body sent for [`HTTPError::NotFound`].
pub const MESSAGE_NOT_FOUND: &'static str = "not found";

/// Body sent for [`HTTPError::Forbidden`].
pub const MESSAGE_FORBIDDEN: &'static str = "forbidden";

/// Body sent for [`HTTPError::InternalServerError`], which never shows the real cause.
pub const MESSAGE_INTERNAL_SERVER_ERROR: &'static str = "internal server error";

/// A failure that a request handler reports to its client.
pub enum HTTPError {
    /// The client supplied invalid input.
    BadRequest { error: String },
    /// The caller may not perform the action.
    Forbidden,
    /// The requested resource does not exist.
    NotFound,
    /// An unexpected failure on the server side.
    InternalServerError { error: String, backtrace: Option<String> },
}

/// The mathematical value of an [`HTTPError`]: its variant, with texts as character sequences.
pub ghost enum HTTPErrorView {
    BadRequest { error: Seq<char> },
    Forbidden,
    NotFound,
    InternalServerError { error: Seq<char>, backtrace: Option<Seq<char>> },
}

/// The characters of an optional text.
pub open spec fn opt_view(o: Option<String>) -> Option<Seq<char>> {
    match o {
        Some(s) => Some(s@),
        None => None,
    }
}

impl View for HTTPError {
    type V = HTTPErrorView;

    open spec fn view(&self) -> HTTPErrorView {
        match self {
            HTTPError::BadRequest { error } => HTTPErrorView::BadRequest { error: error@ },
            HTTPError::Forbidden => HTTPErrorView::Forbidden,
            HTTPError::NotFound => HTTPErrorView::NotFound,
            HTTPError::InternalServerError { error, backtrace } => {
                HTTPErrorView::InternalServerError { error: error@, backtrace: opt_view(*backtrace) }
            },
        }
    }
}

/// What an error turns into: the status code and body sent to the client, and the
/// text of the error-level log record written on the server, if any.
pub struct ErrorResponse {
    pub status: u16,
    pub body: String,
    pub log: Option<String>,
}

/// The one-line (or, with a backtrace, two-line) human-readable text of an error.
pub open spec fn message_of(e: HTTPErrorView) -> Seq<char> {
    match e {
        HTTPErrorView::BadRequest { error } => "bad request: "@ + error,
        HTTPErrorView::Forbidden => MESSAGE_FORBIDDEN@,
        HTTPErrorView::NotFound => MESSAGE_NOT_FOUND@,
        HTTPErrorView::InternalServerError { error, backtrace } => match backtrace {
            Some(b) => "internal server error: "@ + error + "\n"@ + b,
            None => "internal server error: "@ + error,
        },
    }
}

/// The HTTP status code of an error.
pub open spec fn status_of(e: HTTPErrorView) -> u16 {
    match e {
        HTTPErrorView::BadRequest { .. } => 400,
        HTTPErrorView::Forbidden => 403,
        HTTPErrorView::NotFound => 404,
        HTTPErrorView::InternalServerError { .. } => 500,
    }
}

/// The body sent to the client: the client's own error text, or a fixed message.
pub open spec fn body_of(e: HTTPErrorView) -> Seq<char> {
    match e {
        HTTPErrorView::BadRequest { error } => error,
        HTTPErrorView::Forbidden => MESSAGE_FORBIDDEN@,
        HTTPErrorView::NotFound => MESSAGE_NOT_FOUND@,
        HTTPErrorView::InternalServerError { .. } => MESSAGE_INTERNAL_SERVER_ERROR@,
    }
}

/// The server-side log record: only internal errors have one, holding the real
/// error text and the backtrace on a line of its own when there is one.
pub open spec fn log_of(e: HTTPErrorView) -> Option<Seq<char>> {
    match e {
        HTTPErrorView::InternalServerError { error, backtrace } => match backtrace {
            Some(b) => Some(error + "\n"@ + b),
            None => Some(error),
        },
        _ => None,
    }
}

impl HTTPError {
    /// A `BadRequest` that carries `s`.
    pub fn bad_request(s: &str) -> (r: Self)
        ensures
            r@ == (HTTPErrorView::BadRequest { error: s@ }),
    {
        HTTPError::BadRequest { error: String::from_str(s) }
    }

    /// An `InternalServerError` that carries `e` and no backtrace.
    pub fn internal_server_error(e: &str) -> (r: Self)
        ensures
            r@ == (HTTPErrorView::InternalServerError { error: e@, backtrace: None }),
    {
        HTTPError::InternalServerError { error: String::from_str(e), backtrace: None }
    }

    /// The human-readable text of this error.
    pub fn message(&self) -> (r: String)
        ensures
            r@ == message_of(self@),
    {
        match self {
            HTTPError::BadRequest { error } => String::from_str("bad request: ").concat(
                error.as_str(),
            ),
            HTTPError::Forbidden => String::from_str(MESSAGE_FORBIDDEN),
            HTTPError::NotFound => String::from_str(MESSAGE_NOT_FOUND),
            HTTPError::InternalServerError { error, backtrace } => {
                let head = String::from_str("internal server error: ").concat(error.as_str());
                match backtrace {
                    Some(b) => head.concat("\n").concat(b.as_str()),
                    None => head,
                }
            },
        }
    }

    /// Consumes the error and decides the response: status, body, and log record.
    pub fn into_response(self) -> (r: ErrorResponse)
        ensures
            r.status == status_of(self@),
            r.body@ == body_of(self@),
            opt_view(r.log) == log_of(self@),
    {
        match self {
            HTTPError::BadRequest { error } => ErrorResponse { status: 400, body: error, log: None },
            HTTPError::Forbidden => ErrorResponse {
                status: 403,
                body: String::from_str(MESSAGE_FORBIDDEN),
                log: None,
            },
            HTTPError::NotFound => ErrorResponse {
                status: 404,
                body: String::from_str(MESSAGE_NOT_FOUND),
                log: None,
            },
            HTTPError::InternalServerError { error, backtrace } => {
                let log = match backtrace {
                    Some(b) => error.concat("\n").concat(b.as_str()),
                    None => error,
                };
                ErrorResponse {
                    status: 500,
                    body: String::from_str(MESSAGE_INTERNAL_SERVER_ERROR),
                    log: Some(log),
                }
            },
        }
    }
}

/// A bad request answers with status 400 and the client's own text as the body,
/// whatever that text is, and writes no log record.
pub proof fn lemma_bad_request_response(s: Seq<char>)
    ensures
        status_of(HTTPErrorView::BadRequest { error: s }) == 400,
        body_of(HTTPErrorView::BadRequest { error: s }) == s,
        log_of(HTTPErrorView::BadRequest { error: s }) is None,
{
}

/// Forbidden always answers with status 403 and the body `forbidden`, and writes no log record.
pub proof fn lemma_forbidden_response()
    ensures
        status_of(HTTPErrorView::Forbidden) == 403,
        body_of(HTTPErrorView::Forbidden) == "forbidden"@,
        log_of(HTTPErrorView::Forbidden) is None,
{
}

/// Not found always answers with status 404 and the body `not found`, and writes no log record.
pub proof fn lemma_not_found_response()
    ensures
        status_of(HTTPErrorView::NotFound) == 404,
        body_of(HTTPErrorView::NotFound) == "not found"@,
        log_of(HTTPErrorView::NotFound) is None,
{
}

/// An internal error built from `e` answers with status 500 and the fixed body
/// `internal server error`, so the body differs from `e` unless `e` is that very
/// text; the real text `e` goes into the single log record instead.
pub proof fn lemma_internal_server_error_response(e: Seq<char>)
    ensures
        status_of(HTTPErrorView::InternalServerError { error: e, backtrace: None }) == 500,
        body_of(HTTPErrorView::InternalServerError { error: e, backtrace: None })
            == "internal server error"@,
        e != "internal server error"@ ==> body_of(
            HTTPErrorView::InternalServerError { error: e, backtrace: None },
        ) != e,
        log_of(HTTPErrorView::InternalServerError { error: e, backtrace: None }) == Some(e),
{
}

/// An internal error built from `e` reads `internal server error: ` followed by `e`,
/// with no backtrace line.
pub proof fn lemma_internal_server_error_message(e: Seq<char>)
    ensures
        message_of(HTTPErrorView::InternalServerError { error: e, backtrace: None })
            == "internal server error: "@ + e,
{
}

} // verus!
