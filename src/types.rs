//! The error model: protocol-level HTTP errors and domain-level user errors.
use vstd::prelude::*;

verus! {

/// The reason phrase of a status code, or `None` for a code that has none.
pub open spec fn reason_spec(code: u16) -> Option<&'static str> {
    if code == 100 { Some("Continue") }
    else if code == 101 { Some("Switching Protocols") }
    else if code == 200 { Some("OK") }
    else if code == 201 { Some("Created") }
    else if code == 202 { Some("Accepted") }
    else if code == 204 { Some("No Content") }
    else if code == 206 { Some("Partial Content") }
    else if code == 301 { Some("Moved Permanently") }
    else if code == 302 { Some("Found") }
    else if code == 303 { Some("See Other") }
    else if code == 304 { Some("Not Modified") }
    else if code == 307 { Some("Temporary Redirect") }
    else if code == 308 { Some("Permanent Redirect") }
    else if code == 400 { Some("Bad Request") }
    else if code == 401 { Some("Unauthorized") }
    else if code == 403 { Some("Forbidden") }
    else if code == 404 { Some("Not Found") }
    else if code == 405 { Some("Method Not Allowed") }
    else if code == 406 { Some("Not Acceptable") }
    else if code == 408 { Some("Request Timeout") }
    else if code == 409 { Some("Conflict") }
    else if code == 410 { Some("Gone") }
    else if code == 411 { Some("Length Required") }
    else if code == 412 { Some("Precondition Failed") }
    else if code == 413 { Some("Request Entity Too Large") }
    else if code == 414 { Some("Request URI Too Large") }
    else if code == 415 { Some("Unsupported Media Type") }
    else if code == 416 { Some("Requested Range Not Satisfiable") }
    else if code == 417 { Some("Expectation Failed") }
    else if code == 418 { Some("I'm a teapot") }
    else if code == 422 { Some("Unprocessable Entity") }
    else if code == 428 { Some("Precondition Required") }
    else if code == 429 { Some("Too Many Requests") }
    else if code == 431 { Some("Request Header Fields Too Large") }
    else if code == 500 { Some("Internal Server Error") }
    else if code == 501 { Some("Not Implemented") }
    else if code == 502 { Some("Bad Gateway") }
    else if code == 503 { Some("Service Unavailable") }
    else if code == 504 { Some("Gateway Timeout") }
    else if code == 505 { Some("HTTP Version Not Supported") }
    else { None }
}

/// The reason phrase of `code`, if it has one.
pub fn reason_phrase(code: u16) -> (r: Option<&'static str>)
    ensures
        r == reason_spec(code),
{
    match code {
        100 => Some("Continue"),
        101 => Some("Switching Protocols"),
        200 => Some("OK"),
        201 => Some("Created"),
        202 => Some("Accepted"),
        204 => Some("No Content"),
        206 => Some("Partial Content"),
        301 => Some("Moved Permanently"),
        302 => Some("Found"),
        303 => Some("See Other"),
        304 => Some("Not Modified"),
        307 => Some("Temporary Redirect"),
        308 => Some("Permanent Redirect"),
        400 => Some("Bad Request"),
        401 => Some("Unauthorized"),
        403 => Some("Forbidden"),
        404 => Some("Not Found"),
        405 => Some("Method Not Allowed"),
        406 => Some("Not Acceptable"),
        408 => Some("Request Timeout"),
        409 => Some("Conflict"),
        410 => Some("Gone"),
        411 => Some("Length Required"),
        412 => Some("Precondition Failed"),
        413 => Some("Request Entity Too Large"),
        414 => Some("Request URI Too Large"),
        415 => Some("Unsupported Media Type"),
        416 => Some("Requested Range Not Satisfiable"),
        417 => Some("Expectation Failed"),
        418 => Some("I'm a teapot"),
        422 => Some("Unprocessable Entity"),
        428 => Some("Precondition Required"),
        429 => Some("Too Many Requests"),
        431 => Some("Request Header Fields Too Large"),
        500 => Some("Internal Server Error"),
        501 => Some("Not Implemented"),
        502 => Some("Bad Gateway"),
        503 => Some("Service Unavailable"),
        504 => Some("Gateway Timeout"),
        505 => Some("HTTP Version Not Supported"),
        _ => None,
    }
}

/// An HTTP error: a status code, whose description is fixed by the code.
#[derive(Clone, Copy, Debug, PartialEq, Eq, Structural)]
pub struct HTTPError {
    pub code: u16,
}

pub const NOT_FOUND: u16 = 404;
pub const METHOD_NOT_ALLOWED: u16 = 405;
pub const RANGE_NOT_SATISFIABLE: u16 = 416;
pub const INTERNAL_SERVER_ERROR: u16 = 500;
pub const NOT_IMPLEMENTED: u16 = 501;

/// The description of an HTTP error with status `code`.
pub open spec fn http_description_spec(code: u16) -> &'static str {
    match reason_spec(code) {
        Some(s) => s,
        None => "Unknown Error",
    }
}

impl HTTPError {
    pub fn new(code: u16) -> (r: HTTPError)
        ensures
            r.code == code,
    {
        HTTPError { code }
    }

    pub fn code(&self) -> (r: u16)
        ensures
            r == self.code,
    {
        self.code
    }

    /// The fixed human-readable description of this error.
    pub fn description(&self) -> (r: &'static str)
        ensures
            r == http_description_spec(self.code),
    {
        match reason_phrase(self.code) {
            Some(s) => s,
            None => "Unknown Error",
        }
    }
}

/// A domain error; its description is also the key under which a handler
/// for it is looked up.
#[derive(Clone, Debug)]
pub struct UserError {
    pub desc: String,
}

impl UserError {
    pub fn new(desc: &str) -> (r: UserError)
        ensures
            r.desc@ == desc@,
    {
        UserError { desc: desc.to_string() }
    }

    pub fn description(&self) -> (r: &str)
        ensures
            r@ == self.desc@,
    {
        self.desc.as_str()
    }
}

/// Either kind of failure that a request can end in.
#[derive(Clone, Debug)]
pub enum PenError {
    PenHTTPError(HTTPError),
    PenUserError(UserError),
}

/// The mathematical value of an error: its kind and its key.
pub ghost enum ErrorView {
    Http(u16),
    User(Seq<char>),
}

impl View for PenError {
    type V = ErrorView;

    open spec fn view(&self) -> ErrorView {
        match self {
            PenError::PenHTTPError(e) => ErrorView::Http(e.code),
            PenError::PenUserError(e) => ErrorView::User(e.desc@),
        }
    }
}

/// The description of an error as a sequence of characters.
pub open spec fn error_description_spec(e: ErrorView) -> Seq<char> {
    match e {
        ErrorView::Http(code) => http_description_spec(code)@,
        ErrorView::User(desc) => desc,
    }
}

impl From<HTTPError> for PenError {
    fn from(e: HTTPError) -> (r: PenError) {
        PenError::PenHTTPError(e)
    }
}

impl vstd::std_specs::convert::FromSpecImpl<HTTPError> for PenError {
    open spec fn obeys_from_spec() -> bool {
        true
    }

    open spec fn from_spec(e: HTTPError) -> PenError {
        PenError::PenHTTPError(e)
    }
}

impl From<UserError> for PenError {
    fn from(e: UserError) -> (r: PenError) {
        PenError::PenUserError(e)
    }
}

impl vstd::std_specs::convert::FromSpecImpl<UserError> for PenError {
    open spec fn obeys_from_spec() -> bool {
        true
    }

    open spec fn from_spec(e: UserError) -> PenError {
        PenError::PenUserError(e)
    }
}

impl PenError {
    pub fn description(&self) -> (r: &str)
        ensures
            r@ == error_description_spec(self@),
    {
        match self {
            PenError::PenHTTPError(e) => e.description(),
            PenError::PenUserError(e) => e.desc.as_str(),
        }
    }

    /// The underlying HTTP error, which is the cause of an HTTP failure;
    /// a user error has none.
    pub fn cause(&self) -> (r: Option<HTTPError>)
        ensures
            r == (match self {
                PenError::PenHTTPError(e) => Some(*e),
                PenError::PenUserError(_) => None::<HTTPError>,
            }),
    {
        match self {
            PenError::PenHTTPError(e) => Some(*e),
            PenError::PenUserError(_) => None,
        }
    }
}

} // verus!
