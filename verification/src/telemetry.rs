//! The HTTP endpoint's telemetry: what a publish carries once its device is authenticated,
//! and how the endpoint answers it, possibly with a command for the device.
use crate::auth::{percent_decode_lossy, percent_decoded_lossy};
use crate::command::{Command, CommandFilter, CommandFilterModel};
use crate::error::{EndpointError, HttpEndpointError};
use crate::registry::{Application, Device};
use crate::sender::{
    device_publish_id, PublishIdPair, Publish, PublishOptions as SendOptions, PublishOutcome,
};
use vstd::prelude::*;

verus! {

/// Options of a publish that every endpoint takes.
#[derive(Clone, Debug, PartialEq, Eq)]
pub struct PublishCommonOptions {
    pub application: Option<String>,
    pub device: Option<String>,
    pub data_schema: Option<String>,
}

/// Options of a publish over HTTP.
#[derive(Clone, Debug, PartialEq, Eq)]
pub struct PublishOptions {
    pub common: PublishCommonOptions,
    /// The device the authenticated device publishes for.
    pub as_device: Option<String>,
    /// How many seconds to wait for a command to answer with.
    pub ct: Option<u64>,
}

/// The outcome of authenticating a device.
#[derive(Debug)]
pub enum AuthOutcome {
    Fail,
    Pass { application: Application, device: Device, as_device: Option<Device> },
}

/// Builds the publish of an authenticated device; an authentication error where the
/// device failed to authenticate.
pub fn publish_request(
    outcome: AuthOutcome,
    channel: String,
    suffix: Option<String>,
    opts: PublishOptions,
    content_type: Option<String>,
) -> (r: Result<Publish, HttpEndpointError>)
    ensures
        match outcome {
            AuthOutcome::Fail => r == Err::<Publish, HttpEndpointError>(
                HttpEndpointError(EndpointError::AuthenticationError),
            ),
            AuthOutcome::Pass { application, device, as_device } => r matches Ok(p) && {
                &&& p.application == application
                &&& p.device@ == match as_device {
                    Some(a) => device_publish_id(a),
                    None => device_publish_id(device),
                }
                &&& p.sender@ == device_publish_id(device)
                &&& p.channel@ == channel@
                &&& p.options.data_schema == opts.common.data_schema
                &&& p.options.topic == suffix
                &&& p.options.content_type == content_type
                &&& p.options.time is None
                &&& p.options.extensions@.len() == 0
            },
        },
{
    match outcome {
        AuthOutcome::Fail => Err(HttpEndpointError(EndpointError::AuthenticationError)),
        AuthOutcome::Pass { application, device, as_device } => {
            let pair = PublishIdPair::with_devices(device, as_device);
            Ok(
                Publish {
                    application,
                    device: pair.device,
                    sender: pair.sender,
                    channel,
                    options: SendOptions {
                        time: None,
                        topic: suffix,
                        data_schema: opts.common.data_schema,
                        content_type,
                        extensions: Vec::new(),
                    },
                },
            )
        },
    }
}

/// How the endpoint answers a publish.
#[derive(Debug)]
pub enum PublishReply {
    /// Answer with this status, and an error body where the publish failed.
    Respond { status: u16, error: Option<String> },
    /// Wait for a command for the device, at most this many seconds.
    Wait { filter: CommandFilter, seconds: u64 },
}

/// How the endpoint answers a publish: an accepted event waits for a command where the
/// device asks to (a positive time to wait), else `202 Accepted`; a rejected one gets
/// `406 Not Acceptable`, a full queue `503 Service Unavailable`, a failure `500 Internal
/// Server Error` with the error's text.
pub fn publish_reply(
    result: Result<PublishOutcome, String>,
    application: String,
    sender: String,
    device: String,
    ttd: Option<u64>,
) -> (r: PublishReply)
    ensures
        match result {
            Ok(PublishOutcome::Accepted) => match ttd {
                Some(t) if t > 0 => r matches PublishReply::Wait { filter, seconds } && seconds
                    == t && filter@ == (CommandFilterModel {
                    application: application@,
                    gateway: sender@,
                    device: Some(device@),
                    command_filter: None,
                }),
                _ => r matches PublishReply::Respond { status, error } && status == 202
                    && error is None,
            },
            Ok(PublishOutcome::Rejected) => r matches PublishReply::Respond { status, error }
                && status == 406 && error is None,
            Ok(PublishOutcome::QueueFull) => r matches PublishReply::Respond { status, error }
                && status == 503 && error is None,
            Err(e) => r matches PublishReply::Respond { status, error } && status == 500 && (
            error matches Some(m) && m@ == e@),
        },
{
    match result {
        Ok(PublishOutcome::Accepted) => match ttd {
            Some(t) if t > 0 => PublishReply::Wait {
                filter: CommandFilter::proxied_device(application, sender, device),
                seconds: t,
            },
            _ => PublishReply::Respond { status: 202, error: None },
        },
        Ok(PublishOutcome::Rejected) => PublishReply::Respond { status: 406, error: None },
        Ok(PublishOutcome::QueueFull) => PublishReply::Respond { status: 503, error: None },
        Err(e) => PublishReply::Respond { status: 500, error: Some(e) },
    }
}

/// The answer to a device that waited for a command: `200 OK` with the command's name as
/// `command` header and its payload as body, or `202 Accepted` where none came in time.
pub fn command_response(command: Option<Command>) -> (r: (u16, Option<(String, Vec<u8>)>))
    ensures
        match command {
            Some(c) => r.0 == 200 && (r.1 matches Some((name, body)) && name@ == c.command@
                && body@ == match c.payload {
                Some(p) => p@,
                None => Seq::empty(),
            }),
            None => r.0 == 202 && r.1 is None,
        },
{
    match command {
        Some(c) => {
            let body = match c.payload {
                Some(p) => p,
                None => Vec::new(),
            };
            (200, Some((c.command, body)))
        },
        None => (202, None),
    }
}


/// The credentials of a `Basic` authorization, each percent-decoded; an authentication
/// error where no password is given.
pub fn basic_credentials(user_id: &str, password: Option<&str>) -> (r: Result<
    (String, String),
    HttpEndpointError,
>)
    ensures
        match password {
            Some(p) => r matches Ok((u, pw)) && u@ == percent_decoded_lossy(user_id@) && pw@
                == percent_decoded_lossy(p@),
            None => r == Err::<(String, String), HttpEndpointError>(
                HttpEndpointError(EndpointError::AuthenticationError),
            ),
        },
{
    match password {
        Some(p) => Ok((percent_decode_lossy(user_id), percent_decode_lossy(p))),
        None => Err(HttpEndpointError(EndpointError::AuthenticationError)),
    }
}

/// The third `/`-separated part of a path (the device of a path `/<api>/<device>/...`), if
/// it has one.
pub open spec fn third_part(path: Seq<char>) -> Option<Seq<char>> {
    match crate::text::split_once(path, '/') {
        Some((_, rest)) => match crate::text::split_once(rest, '/') {
            Some((_, tail)) => Some(
                match crate::text::split_once(tail, '/') {
                    Some((part, _)) => part,
                    None => tail,
                },
            ),
            None => None,
        },
        None => None,
    }
}

/// Whether the claims of a token are for the device that the request's path names: the
/// claimed device id is the path's third `/`-separated part.
pub fn verify_jwt_claims(device_id: &str, path: &str) -> (r: bool)
    requires
        third_part(path@) is Some,
    ensures
        r == (third_part(path@) == Some(device_id@)),
{
    let cs = crate::text::chars_of(path);
    match crate::text::split_once_chars(&cs, '/') {
        Some((_, rest)) => match crate::text::split_once_chars(&rest, '/') {
            Some((_, tail)) => {
                let part = match crate::text::split_once_chars(&tail, '/') {
                    Some((p, _)) => p,
                    None => tail,
                };
                crate::text::chars_eq(&part, &crate::text::chars_of(device_id))
            },
            None => false,
        },
        None => false,
    }
}

} // verus!
