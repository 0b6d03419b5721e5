use vstd::prelude::*;
use vstd::string::StringExecFns;
use crate::error::{fetch, is_bad_status, is_fetch_failure, is_parse_failure, parse, IdalonError};

verus! {

/// The serialization of the URL that `reqwest::Url::parse` makes of `text`,
/// or `None` where it rejects `text`.
pub uninterp spec fn parsed_url(text: Seq<char>) -> Option<Seq<char>>;

/// `reqwest::Url::parse`, with the URL handed back as its serialization.
/// The parser reads nothing but `text`, so what it gives is
/// [`parsed_url`] of `text`.
#[verifier::external_body]
fn parse_url(text: &str) -> (url: Option<String>)
    ensures
        match url {
            Some(serialization) => parsed_url(text@) == Some(serialization@),
            None => parsed_url(text@) is None,
        },
{
    match reqwest::Url::parse(text) {
        Ok(url) => Some(String::from(url)),
        Err(_) => None,
    }
}

/// The text from which the address of one record is parsed: the address of
/// the listing, a slash, the record's identifier.
pub open spec fn record_path(base: Seq<char>, uuid: Seq<char>) -> Seq<char> {
    base + "/"@ + uuid
}

/// The address of the record `uuid` in the listing at `base`, or `None`
/// where the two do not make a URL.
pub fn record_url(base: &str, uuid: &str) -> (url: Option<String>)
    ensures
        match url {
            Some(serialization) => parsed_url(record_path(base@, uuid@)) == Some(serialization@),
            None => parsed_url(record_path(base@, uuid@)) is None,
        },
{
    let text = String::from_str(base).concat("/").concat(uuid);
    parse_url(text.as_str())
}

/// Whether a response with this status code is read: any code under 400.
pub open spec fn accepted(status: u16) -> bool {
    status < 400
}

/// Judges a status code. The body of a response that is not accepted is
/// never looked at: the error says no more than that.
pub fn check_status(status: u16) -> (verdict: Result<(), IdalonError>)
    ensures
        match verdict {
            Ok(_) => accepted(status),
            Err(e) => !accepted(status) && is_bad_status(e@),
        },
{
    if status < 400 {
        Ok(())
    } else {
        Err(IdalonError::bad_status())
    }
}

/// Reads what sending a request gave: the status code of the response, or
/// the transport's failure. `Ok` tells the caller to decode the body; on
/// `Err` the body is left alone.
pub fn on_sent(sent: Result<u16, reqwest::Error>) -> (verdict: Result<(), IdalonError>)
    ensures
        match sent {
            Ok(status) => match verdict {
                Ok(_) => accepted(status),
                Err(e) => !accepted(status) && is_bad_status(e@),
            },
            Err(_) => verdict matches Err(e) && is_fetch_failure(e@),
        },
{
    match sent {
        Ok(status) => check_status(status),
        Err(e) => Err(fetch(e)),
    }
}

/// Reads what decoding the body of an accepted response gave: the value,
/// which is handed on as it is, or the decoder's failure.
pub fn on_decoded<T>(decoded: Result<T, reqwest::Error>) -> (outcome: Result<T, IdalonError>)
    ensures
        match decoded {
            Ok(value) => outcome == Ok::<T, IdalonError>(value),
            Err(_) => outcome matches Err(e) && is_parse_failure(e@),
        },
{
    match decoded {
        Ok(value) => Ok(value),
        Err(e) => Err(parse(e)),
    }
}

} // verus!
