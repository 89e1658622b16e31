//! Outcomes of fetching a page: the typed failures, and the text each one shows.

use vstd::prelude::*;
use vstd::string::*;

verus! {

/// Why a fetch failed.
#[derive(Debug, Clone)]
pub enum FetchError {
    /// The HTTP client could not be set up.
    ClientConstruction(String),
    /// The request did not get a response (name lookup, connection, timeout).
    Network(String),
    /// The server answered with a status outside 200..=299.
    HttpStatus { code: u16, reason: String },
    /// The response body could not be read as text.
    BodyRead(String),
}

/// The decimal digits of `n`, most significant first.
pub open spec fn decimal(n: nat) -> Seq<char>
    decreases n,
{
    let digit = (('0' as u32) + (n % 10) as u32) as char;
    if n < 10 {
        seq![digit]
    } else {
        decimal(n / 10).push(digit)
    }
}

pub open spec fn is_success(code: u16) -> bool {
    200 <= code <= 299
}

/// The reason text shown for a status that has no canonical reason phrase.
pub open spec fn unknown_reason() -> Seq<char> {
    "Unknown error"@
}

impl FetchError {
    /// The human-readable text of the error.
    pub open spec fn message_view(&self) -> Seq<char> {
        match self {
            FetchError::ClientConstruction(cause) => "Failed to create HTTP client: "@ + cause@,
            FetchError::Network(cause) => "Failed to fetch page: "@ + cause@,
            FetchError::HttpStatus { code, reason } => "HTTP "@ + decimal(*code as nat) + ": "@
                + reason@,
            FetchError::BodyRead(cause) => "Failed to read response: "@ + cause@,
        }
    }

    /// The human-readable text of the error.
    pub fn message(&self) -> (r: String)
        ensures
            r@ == self.message_view(),
    {
        match self {
            FetchError::ClientConstruction(cause) => String::from_str(
                "Failed to create HTTP client: ",
            ).concat(cause.as_str()),
            FetchError::Network(cause) => String::from_str("Failed to fetch page: ").concat(
                cause.as_str(),
            ),
            FetchError::HttpStatus { code, reason } => String::from_str("HTTP ").concat(
                decimal_string(*code).as_str(),
            ).concat(": ").concat(reason.as_str()),
            FetchError::BodyRead(cause) => String::from_str("Failed to read response: ").concat(
                cause.as_str(),
            ),
        }
    }
}

/// Relies on `u16`'s `Display` (through `ToString`): the number in decimal,
/// without sign or leading zeros.
#[verifier::external_body]
fn decimal_string(n: u16) -> (r: String)
    ensures
        r@ == decimal(n as nat),
{
    n.to_string()
}

/// Whether a response with status `code` is a success; if not, the error to
/// report, with the status's reason phrase, if it has one.
pub fn check_status(code: u16, reason: Option<String>) -> (r: Result<(), FetchError>)
    ensures
        match r {
            Ok(_) => is_success(code),
            Err(FetchError::HttpStatus { code: c, reason: t }) => !is_success(code) && c == code
                && t@ == match reason {
                Some(s) => s@,
                None => unknown_reason(),
            },
            Err(_) => false,
        },
{
    if 200 <= code && code <= 299 {
        Ok(())
    } else {
        let text = match reason {
            Some(s) => s,
            None => String::from_str("Unknown error"),
        };
        Err(FetchError::HttpStatus { code, reason: text })
    }
}

/// The outcome that a load delivers to the navigation controller: the page's
/// text, or the error's message.
pub fn outcome_of(result: Result<String, FetchError>) -> (r: Result<String, String>)
    ensures
        match (result, r) {
            (Ok(text), Ok(t)) => t@ == text@,
            (Err(e), Err(m)) => m@ == e.message_view(),
            _ => false,
        },
{
    match result {
        Ok(text) => Ok(text),
        Err(e) => Err(e.message()),
    }
}

} // verus!
