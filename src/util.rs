//! Helpers around outbound HTTP: how an answer is classified, what an error
//! keeps of it, and the URLs that requests go to.
use vstd::prelude::*;
use reqwest::Error as ReqwestError;
use url::{ParseError, Url};

verus! {

/// `reqwest::Error`, carried in an error.
#[verifier::external_type_specification]
#[verifier::external_body]
pub struct ExReqwestError(ReqwestError);

/// `url::ParseError`, carried in an error.
#[verifier::external_type_specification]
#[verifier::external_body]
pub struct ExParseError(ParseError);

/// The serialisation of what `url::Url::parse` makes of a text, if it parses.
pub uninterp spec fn parsed_url(input: Seq<char>) -> Option<Seq<char>>;

/// The serialisation of what `url::Url::join` makes of `input` against the URL
/// that `base` parses to, if both succeed.
pub uninterp spec fn joined_url(base: Seq<char>, input: Seq<char>) -> Option<Seq<char>>;

/// What `str::trim` leaves of a text.
pub uninterp spec fn trimmed(s: Seq<char>) -> Seq<char>;

/// Relies on `url::Url::parse`; the URL is handed on as its serialisation.
#[verifier::external_body]
pub fn parse_url(input: &str) -> (r: Result<String, ParseError>)
    ensures
        match r {
            Ok(u) => parsed_url(input@) == Some(u@),
            Err(_) => parsed_url(input@) is None,
        },
{
    Url::parse(input).map(String::from)
}

/// Relies on `url::Url::parse` for the base and `url::Url::join` for the
/// input; the result is handed on as its serialisation.
#[verifier::external_body]
pub fn join_url(base: &str, input: &str) -> (r: Result<String, ParseError>)
    ensures
        match r {
            Ok(u) => joined_url(base@, input@) == Some(u@),
            Err(_) => joined_url(base@, input@) is None,
        },
{
    match Url::parse(base) {
        Ok(base_url) => base_url.join(input).map(String::from),
        Err(e) => Err(e),
    }
}

/// Relies on `str::trim`: the text without leading and trailing whitespace.
#[verifier::external_body]
fn trim(s: &str) -> (r: String)
    ensures
        r@ == trimmed(s@),
{
    s.trim().to_string()
}

/// A failed request, or an answer that could not be used.
#[derive(Debug)]
pub enum Error {
    /// The request could not be sent, or no answer came.
    HttpRequest { source: ReqwestError },
    /// The answer was a success but its body was not the expected JSON.
    ParseJson { source: ReqwestError },
    /// The answer was a client or server error; its body is kept, trimmed.
    HttpErrorResponse { status: u16, url: String, text: String },
    /// The answer was a client or server error whose body could not be read.
    HttpErrorResponseUndecodableText { status: u16, url: String, encoding_error: ReqwestError },
}

/// A client error (4xx) or a server error (5xx).
pub open spec fn is_error_status_spec(status: u16) -> bool {
    400 <= status < 600
}

/// Whether an HTTP status is a client or a server error.
pub fn is_error_status(status: u16) -> (r: bool)
    ensures
        r == is_error_status_spec(status),
{
    (400 <= status && status < 500) || (500 <= status && status < 600)
}

/// The error for an answer with an error status, from what reading its body gave.
pub fn error_for_status(status: u16, url: String, body: Result<String, ReqwestError>) -> (r:
    Error)
    ensures
        match body {
            Ok(text) => r matches Error::HttpErrorResponse { status: s, url: u, text: t }
                && s == status && u@ == url@ && t@ == trimmed(text@),
            Err(e) => r == (Error::HttpErrorResponseUndecodableText {
                status,
                url,
                encoding_error: e,
            }),
        },
{
    match body {
        Ok(text) => Error::HttpErrorResponse { status, url, text: trim(text.as_str()) },
        Err(encoding_error) => Error::HttpErrorResponseUndecodableText {
            status,
            url,
            encoding_error,
        },
    }
}

/// A GET request: where it goes and the query pairs that are added to it.
#[derive(Debug, Clone, PartialEq, Eq, Hash)]
pub struct HttpGet {
    pub url: String,
    pub query: Vec<(String, String)>,
}

/// The query pairs of a request, as texts.
pub open spec fn query_texts(q: Seq<(String, String)>) -> Seq<(Seq<char>, Seq<char>)> {
    q.map_values(|p: (String, String)| (p.0@, p.1@))
}

/// A query pair of two literal texts.
pub fn query_pair(key: &str, value: &str) -> (r: (String, String))
    ensures
        r.0@ == key@,
        r.1@ == value@,
{
    (String::from_str(key), String::from_str(value))
}

} // verus!
