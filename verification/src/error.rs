use vstd::prelude::*;
use vstd::string::StringExecFns;

verus! {

/// What went wrong with a request.
#[derive(Debug, Clone, Copy, PartialEq, Eq, Structural)]
pub enum ErrorKind {
    /// The request did not reach the server, or no response came back.
    Fetch,
    /// The response body does not have the expected shape.
    Parse,
    /// The server answered with a status code of 400 or above.
    BadStatus,
    /// Raised by a caller of the library, with a message of its own.
    Other,
}

/// The mathematical content of an [`IdalonError`].
pub struct ErrorView {
    pub kind: ErrorKind,
    pub msg: Seq<char>,
}

/// The one error type of the library: a kind and a message for people.
#[derive(Debug)]
pub struct IdalonError {
    msg: String,
    kind: ErrorKind,
}

impl View for IdalonError {
    type V = ErrorView;

    closed spec fn view(&self) -> ErrorView {
        ErrorView { kind: self.kind, msg: self.msg@ }
    }
}

/// The message of every error of kind [`ErrorKind::BadStatus`].
pub open spec fn bad_status_message() -> Seq<char> {
    "Request returned an error status code."@
}

/// The message of a transport failure whose cause reads `cause`.
pub open spec fn fetch_message(cause: Seq<char>) -> Seq<char> {
    "Failed to fetch URL: "@ + cause
}

/// The message of a decoding failure whose cause reads `cause`.
pub open spec fn parse_message(cause: Seq<char>) -> Seq<char> {
    "Failed to parse JSON from URL: "@ + cause
}

/// Whether `error` is the error for a refused status code.
pub open spec fn is_bad_status(error: ErrorView) -> bool {
    error == (ErrorView { kind: ErrorKind::BadStatus, msg: bad_status_message() })
}

/// Whether `cause` opens as the rendering of an error of the transport
/// does: with the name of its type.
pub open spec fn names_transport_error(cause: Seq<char>) -> bool {
    "reqwest::Error"@.is_prefix_of(cause)
}

/// Whether `error` is the error for a transport failure: of kind
/// [`ErrorKind::Fetch`], with the rendering of an error of the transport
/// for its cause.
pub open spec fn is_fetch_failure(error: ErrorView) -> bool {
    error.kind == ErrorKind::Fetch && exists|cause: Seq<char>|
        names_transport_error(cause) && error.msg == #[trigger] fetch_message(cause)
}

/// Whether `error` is the error for a decoding failure: of kind
/// [`ErrorKind::Parse`], with the rendering of an error of the transport
/// for its cause.
pub open spec fn is_parse_failure(error: ErrorView) -> bool {
    error.kind == ErrorKind::Parse && exists|cause: Seq<char>|
        names_transport_error(cause) && error.msg == #[trigger] parse_message(cause)
}

/// No error is of two of the three sorts that a request can end in.
pub proof fn lemma_request_errors_differ(error: ErrorView)
    ensures
        !(is_bad_status(error) && is_fetch_failure(error)),
        !(is_bad_status(error) && is_parse_failure(error)),
        !(is_fetch_failure(error) && is_parse_failure(error)),
{
}

impl IdalonError {
    /// An error of kind [`ErrorKind::Other`] that carries `msg`.
    pub fn new(msg: &str) -> (e: IdalonError)
        ensures
            e@ == (ErrorView { kind: ErrorKind::Other, msg: msg@ }),
    {
        IdalonError { msg: String::from_str(msg), kind: ErrorKind::Other }
    }

    /// The message.
    pub fn get_msg(&self) -> (msg: &str)
        ensures
            msg@ == self@.msg,
    {
        self.msg.as_str()
    }

    /// The kind.
    pub fn kind(&self) -> (kind: ErrorKind)
        ensures
            kind == self@.kind,
    {
        self.kind
    }

    /// The error for a response whose status code is 400 or above.
    pub fn bad_status() -> (e: IdalonError)
        ensures
            is_bad_status(e@),
    {
        IdalonError {
            msg: String::from_str("Request returned an error status code."),
            kind: ErrorKind::BadStatus,
        }
    }

    /// The error for a request that failed in transport, `cause` being the
    /// transport's own account of it.
    pub fn fetch_failure(cause: &str) -> (e: IdalonError)
        ensures
            e@ == (ErrorView { kind: ErrorKind::Fetch, msg: fetch_message(cause@) }),
    {
        let msg = String::from_str("Failed to fetch URL: ").concat(cause);
        IdalonError { msg, kind: ErrorKind::Fetch }
    }

    /// The error for a body that could not be decoded, `cause` being the
    /// decoder's own account of it.
    pub fn parse_failure(cause: &str) -> (e: IdalonError)
        ensures
            e@ == (ErrorView { kind: ErrorKind::Parse, msg: parse_message(cause@) }),
    {
        let msg = String::from_str("Failed to parse JSON from URL: ").concat(cause);
        IdalonError { msg, kind: ErrorKind::Parse }
    }
}

/// `reqwest::Error`, which the library hands on without looking inside.
#[verifier::external_type_specification]
#[verifier::external_body]
pub struct ExReqwestError(reqwest::Error);

/// The text that `{:?}` prints for a `reqwest::Error`, through its impl of
/// `Debug`. That impl writes a struct named `reqwest::Error`, so the text
/// opens with that name; what follows goes through the `Debug` of whatever
/// error lies beneath, and nothing is claimed of it.
#[verifier::external_body]
fn debug_text(e: &reqwest::Error) -> (text: String)
    ensures
        names_transport_error(text@),
{
    format!("{:?}", e)
}

/// Turns a transport failure into the library's error. The message is
/// [`fetch_message`] of the failure's `Debug` rendering.
pub fn fetch(e: reqwest::Error) -> (r: IdalonError)
    ensures
        is_fetch_failure(r@),
{
    let cause = debug_text(&e);
    IdalonError::fetch_failure(cause.as_str())
}

/// Turns a decoding failure into the library's error. The message is
/// [`parse_message`] of the failure's `Debug` rendering.
pub fn parse(e: reqwest::Error) -> (r: IdalonError)
    ensures
        is_parse_failure(r@),
{
    let cause = debug_text(&e);
    IdalonError::parse_failure(cause.as_str())
}

} // verus!
