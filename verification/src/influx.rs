//! Errors of the InfluxDB pusher, and how they are answered.
use crate::text::concat;
use vstd::prelude::*;

verus! {

/// An error of the pusher.
#[derive(Debug, PartialEq, Eq)]
pub enum ServiceError {
    /// A JSON path could not be processed.
    SelectorError { details: String },
    /// The payload could not be processed.
    PayloadParseError { details: String },
}

/// The body of an error response.
#[derive(Clone, Debug, PartialEq, Eq)]
pub struct ErrorResponse {
    pub error: String,
    pub message: String,
}

/// The text of an error.
pub open spec fn service_error_text(e: ServiceError) -> Seq<char> {
    match e {
        ServiceError::SelectorError { details } => "Error processing JSON path: "@ + details@,
        ServiceError::PayloadParseError { details } => "Failed processing payload: "@ + details@,
    }
}

/// The name of an error in a response.
pub open spec fn service_error_name(e: ServiceError) -> Seq<char> {
    match e {
        ServiceError::SelectorError { .. } => "SelectorError"@,
        ServiceError::PayloadParseError { .. } => "PayloadError"@,
    }
}

impl ServiceError {
    /// The text of the error.
    pub fn message(&self) -> (r: String)
        ensures
            r@ == service_error_text(*self),
    {
        match self {
            ServiceError::SelectorError { details } => concat(
                "Error processing JSON path: ",
                details.as_str(),
            ),
            ServiceError::PayloadParseError { details } => concat(
                "Failed processing payload: ",
                details.as_str(),
            ),
        }
    }

    /// The response to the error: `406 Not Acceptable`, with the error's name and text.
    pub fn error_response(&self) -> (r: (u16, ErrorResponse))
        ensures
            r.0 == 406,
            r.1.error@ == service_error_name(*self),
            r.1.message@ == service_error_text(*self),
    {
        let message = self.message();
        let error = match self {
            ServiceError::SelectorError { .. } => "SelectorError".to_owned(),
            ServiceError::PayloadParseError { .. } => "PayloadError".to_owned(),
        };
        (406, ErrorResponse { error, message })
    }
}

} // verus!
