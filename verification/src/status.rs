//! HTTP status codes, as the `http` crate names and writes them.
use crate::text::{concat, decimal, decimal_text, join2};
use vstd::prelude::*;

verus! {

/// Name for the reason phrase that `http::StatusCode::canonical_reason` gives for a code.
pub uninterp spec fn canonical_reason_of(code: u16) -> Option<Seq<char>>;

/// Calls `http::StatusCode::canonical_reason` on the status code `code`; the phrase is the
/// one that the name states, and nothing more is claimed of it.
#[verifier::external_body]
fn canonical_reason(code: u16) -> (r: Option<String>)
    requires
        100 <= code < 1000,
    ensures
        match r {
            Some(t) => canonical_reason_of(code) == Some(t@),
            None => canonical_reason_of(code) is None,
        },
{
    match http::StatusCode::from_u16(code) {
        Ok(c) => c.canonical_reason().map(|s| s.to_string()),
        Err(_) => None,
    }
}

/// How a status code is written: its number, a space, and its reason phrase.
pub open spec fn status_display(code: u16) -> Seq<char> {
    decimal(code as nat) + seq![' '] + match canonical_reason_of(code) {
        Some(reason) => reason,
        None => "<unknown status code>"@,
    }
}

/// Writes a status code as `http::StatusCode` displays it.
pub fn status_text(code: u16) -> (r: String)
    requires
        100 <= code < 1000,
    ensures
        r@ == status_display(code),
{
    let number = decimal_text(code as u64);
    match canonical_reason(code) {
        Some(reason) => join2(number.as_str(), ' ', reason.as_str()),
        None => join2(number.as_str(), ' ', "<unknown status code>"),
    }
}

} // verus!
