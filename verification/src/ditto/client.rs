//! The Ditto client: the URLs it calls, and what the status of a response means.
use crate::ditto::operator::{DittoError, ditto_error_text};
use crate::text::{concat, decimal, decimal_text};
use crate::urls::{append_query_pair, join_url, url_joined, url_with_pair};
use vstd::prelude::*;

verus! {

/// How a response to an API request is read.
#[derive(Debug, PartialEq, Eq)]
pub enum ResponseRead {
    /// No content (`204`): no value.
    NoContent,
    /// A success: the body is read as JSON.
    ReadJson,
    /// No success: the request failed with this error.
    Fail(DittoError),
}

/// How a response with this status is read: successes (200 to 299) have a JSON body but
/// for `204 No Content`; any other status fails the request.
pub fn response_read(status: u16) -> (r: ResponseRead)
    ensures
        r == if 200 <= status < 300 {
            if status == 204 {
                ResponseRead::NoContent
            } else {
                ResponseRead::ReadJson
            }
        } else {
            ResponseRead::Fail(DittoError::Response(status))
        },
{
    if 200 <= status && status < 300 {
        if status == 204 {
            ResponseRead::NoContent
        } else {
            ResponseRead::ReadJson
        }
    } else {
        ResponseRead::Fail(DittoError::Response(status))
    }
}

/// The URL of a DevOps command: `/devops/piggyback/connectivity` below the base URL, with
/// the timeout in seconds (`<n>s`) as `timeout` query parameter where one is given.
pub open spec fn devops_url_of(base: Seq<char>, timeout_secs: Option<u64>) -> Result<Seq<char>, Seq<char>> {
    match url_joined(base, "/devops/piggyback/connectivity"@) {
        Err(e) => Err("failed to build URL: "@ + e),
        Ok(url) => match timeout_secs {
            None => Ok(url),
            Some(t) => match url_with_pair(url, "timeout"@, decimal(t as nat) + "s"@) {
                Some(u) => Ok(u),
                None => Err("failed to build URL: "@ + url),
            },
        },
    }
}

/// The URL of a DevOps command; the error's text where it cannot be built.
pub fn devops_url(base: &str, timeout_secs: Option<u64>) -> (r: Result<String, String>)
    ensures
        match r {
            Ok(u) => devops_url_of(base@, timeout_secs) == Ok::<Seq<char>, Seq<char>>(u@),
            Err(e) => devops_url_of(base@, timeout_secs) == Err::<Seq<char>, Seq<char>>(e@),
        },
{
    let url = match join_url(base, "/devops/piggyback/connectivity") {
        Ok(u) => u,
        Err(e) => {
            return Err(concat("failed to build URL: ", e.as_str()));
        },
    };
    match timeout_secs {
        None => Ok(url),
        Some(t) => {
            let value = concat(decimal_text(t).as_str(), "s");
            match append_query_pair(url.as_str(), "timeout", value.as_str()) {
                Some(u) => Ok(u),
                None => Err(concat("failed to build URL: ", url.as_str())),
            }
        },
    }
}

/// The URL of an API request: the path below `/api/2/` of the base URL.
pub open spec fn api_url_of(base: Seq<char>, path: Seq<char>) -> Result<Seq<char>, Seq<char>> {
    match url_joined(base, "/api/2/"@) {
        Err(e) => Err("failed to build URL: "@ + e),
        Ok(api) => match url_joined(api, path) {
            Err(e) => Err("failed to build URL: "@ + e),
            Ok(u) => Ok(u),
        },
    }
}

/// The URL of an API request; the error's text where it cannot be built.
pub fn api_url(base: &str, path: &str) -> (r: Result<String, String>)
    ensures
        match r {
            Ok(u) => api_url_of(base@, path@) == Ok::<Seq<char>, Seq<char>>(u@),
            Err(e) => api_url_of(base@, path@) == Err::<Seq<char>, Seq<char>>(e@),
        },
{
    let api = match join_url(base, "/api/2/") {
        Ok(u) => u,
        Err(e) => {
            return Err(concat("failed to build URL: ", e.as_str()));
        },
    };
    match join_url(api.as_str(), path) {
        Ok(u) => Ok(u),
        Err(e) => Err(concat("failed to build URL: ", e.as_str())),
    }
}

} // verus!
