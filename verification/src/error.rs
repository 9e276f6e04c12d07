//! Errors of the endpoints, and how they are answered over HTTP.
use crate::auth::ClientError;
use crate::text::concat;
use vstd::prelude::*;

verus! {

/// An error of an endpoint.
#[derive(Debug, PartialEq, Eq)]
pub enum EndpointError {
    /// The data has an invalid format; the text of the cause.
    InvalidFormat { source: String },
    /// The request is invalid.
    InvalidRequest { details: String },
    /// The endpoint is not configured correctly.
    ConfigurationError { details: String },
    /// The authentication process failed to evaluate an outcome; the text of the cause.
    AuthenticationServiceError { source: String },
    /// The authentication process successfully evaluated that the access is denied.
    AuthenticationError,
}

/// The name of an error.
pub open spec fn error_name(e: EndpointError) -> Seq<char> {
    match e {
        EndpointError::InvalidFormat { .. } => "InvalidFormat"@,
        EndpointError::InvalidRequest { .. } => "InvalidRequest"@,
        EndpointError::ConfigurationError { .. } => "ConfigurationError"@,
        EndpointError::AuthenticationServiceError { .. } => "AuthenticationServiceError"@,
        EndpointError::AuthenticationError => "AuthenticationError"@,
    }
}

/// The text of an error.
pub open spec fn error_text(e: EndpointError) -> Seq<char> {
    match e {
        EndpointError::InvalidFormat { source } => "Invalid data format: "@ + source@,
        EndpointError::InvalidRequest { details } => "Invalid data: "@ + details@,
        EndpointError::ConfigurationError { details } => "Endpoint configuration error: "@
            + details@,
        EndpointError::AuthenticationServiceError { source } => "Failed to authenticate: "@
            + source@,
        EndpointError::AuthenticationError => "Authentication failed"@,
    }
}

/// The HTTP status of an error: bad request for invalid data, internal server error for
/// a configuration error, service unavailable where authentication could not be
/// evaluated, forbidden where it was denied.
pub open spec fn error_status(e: EndpointError) -> u16 {
    match e {
        EndpointError::InvalidFormat { .. } => 400,
        EndpointError::InvalidRequest { .. } => 400,
        EndpointError::ConfigurationError { .. } => 500,
        EndpointError::AuthenticationServiceError { .. } => 503,
        EndpointError::AuthenticationError => 403,
    }
}

impl EndpointError {
    /// The name of the error.
    pub fn name(&self) -> (r: &str)
        ensures
            r@ == error_name(*self),
    {
        match self {
            EndpointError::InvalidFormat { .. } => "InvalidFormat",
            EndpointError::InvalidRequest { .. } => "InvalidRequest",
            EndpointError::ConfigurationError { .. } => "ConfigurationError",
            EndpointError::AuthenticationServiceError { .. } => "AuthenticationServiceError",
            EndpointError::AuthenticationError => "AuthenticationError",
        }
    }

    /// The text of the error.
    pub fn message(&self) -> (r: String)
        ensures
            r@ == error_text(*self),
    {
        match self {
            EndpointError::InvalidFormat { source } => concat("Invalid data format: ", source.as_str()),
            EndpointError::InvalidRequest { details } => concat("Invalid data: ", details.as_str()),
            EndpointError::ConfigurationError { details } => concat(
                "Endpoint configuration error: ",
                details.as_str(),
            ),
            EndpointError::AuthenticationServiceError { source } => concat(
                "Failed to authenticate: ",
                source.as_str(),
            ),
            EndpointError::AuthenticationError => "Authentication failed".to_owned(),
        }
    }
}

/// An error of the authentication service's client is an error of the service: the
/// request's error becomes the source.
pub open spec fn client_error_source(err: ClientError) -> EndpointError {
    match err {
        ClientError::Request(m) => EndpointError::AuthenticationServiceError { source: m },
    }
}

impl From<ClientError> for EndpointError {
    fn from(err: ClientError) -> (r: EndpointError) {
        match err {
            ClientError::Request(m) => EndpointError::AuthenticationServiceError { source: m },
        }
    }
}

impl vstd::std_specs::convert::FromSpecImpl<ClientError> for EndpointError {
    open spec fn obeys_from_spec() -> bool {
        true
    }

    open spec fn from_spec(err: ClientError) -> EndpointError {
        client_error_source(err)
    }
}

/// The body of an error response.
#[derive(Clone, Debug, PartialEq, Eq)]
pub struct ErrorResponse {
    pub code: u16,
    pub error: String,
    pub message: String,
}

/// An endpoint error, answered over HTTP.
#[derive(Debug, PartialEq, Eq)]
pub struct HttpEndpointError(pub EndpointError);

impl HttpEndpointError {
    /// The HTTP status of the error.
    pub fn status_code(&self) -> (r: u16)
        ensures
            r == error_status(self.0),
    {
        match self.0 {
            EndpointError::InvalidFormat { .. } => 400,
            EndpointError::InvalidRequest { .. } => 400,
            EndpointError::ConfigurationError { .. } => 500,
            EndpointError::AuthenticationServiceError { .. } => 503,
            EndpointError::AuthenticationError => 403,
        }
    }

    /// The body of the response: the status, the error's name and its text.
    pub fn error_response(&self) -> (r: ErrorResponse)
        ensures
            r.code == error_status(self.0),
            r.error@ == error_name(self.0),
            r.message@ == error_text(self.0),
    {
        ErrorResponse {
            code: self.status_code(),
            error: self.0.name().to_owned(),
            message: self.0.message(),
        }
    }
}

} // verus!
