//! The Things Network uplinks: which data schema and payload a device's spec asks for.
use crate::json::{as_str, member_of, member_or_none, JsonValue};
use crate::error::{EndpointError, HttpEndpointError};
use crate::registry::Device;
use crate::downstream::Publish as DownstreamPublish;
use crate::sender::{device_publish_id, Publish, PublishIdPair, PublishOptions};
use crate::telemetry::{AuthOutcome, PublishCommonOptions};
use crate::text::{str_is, string_of};
use vstd::prelude::*;

verus! {

/// The device whose spec counts: the `as` device where there is one.
pub open spec fn spec_device(device: Device, as_device: Option<Device>) -> Device {
    match as_device {
        Some(d) => d,
        None => device,
    }
}

/// The section `key` of the spec of the device that counts.
pub open spec fn spec_section(device: Device, as_device: Option<Device>, key: Seq<char>) -> Option<JsonValue> {
    member_of(spec_device(device, as_device).spec@, key)
}

/// Looks a member up in an optional value.
pub open spec fn then_member(v: Option<JsonValue>, key: Seq<char>) -> Option<JsonValue> {
    match v {
        Some(v) => member_or_none(v, key),
        None => None,
    }
}

/// The data schema of an uplink: the one given, else the `data_schema` text the
/// `lorawan` spec names for the uplink's port (`lorawan.ports.<port>.data_schema`).
pub open spec fn data_schema_of(
    model_id: Option<Seq<char>>,
    device: Device,
    as_device: Option<Device>,
    port: Seq<char>,
) -> Option<Seq<char>> {
    match model_id {
        Some(m) => Some(m),
        None => match then_member(
            then_member(
                then_member(spec_section(device, as_device, "lorawan"@), "ports"@),
                port,
            ),
            "data_schema"@,
        ) {
            Some(v) => as_str(v),
            None => None,
        },
    }
}

/// The section `key` of the spec of the device that counts (`as` device first).
pub fn get_spec<'d>(device: &'d Device, as_device: &'d Option<Device>, key: &str) -> (r: Option<
    &'d JsonValue,
>)
    ensures
        match r {
            Some(v) => spec_section(*device, *as_device, key@) == Some(*v),
            None => spec_section(*device, *as_device, key@) is None,
        },
{
    let device = match as_device {
        Some(d) => d,
        None => device,
    };
    crate::json::find_member(&device.spec, key)
}

fn member<'a>(v: Option<&'a JsonValue>, key: &str) -> (r: Option<&'a JsonValue>)
    ensures
        match r {
            Some(m) => then_member(
                match v {
                    Some(v) => Some(*v),
                    None => None,
                },
                key@,
            ) == Some(*m),
            None => then_member(
                match v {
                    Some(v) => Some(*v),
                    None => None,
                },
                key@,
            ) is None,
        },
{
    match v {
        Some(v) => v.get(key),
        None => None,
    }
}

/// Evaluates the data schema of an uplink: the given model id, else the one the device's
/// `lorawan` spec maps the port to.
pub fn eval_data_schema(
    model_id: Option<String>,
    device: &Device,
    as_device: &Option<Device>,
    port: &str,
) -> (r: Option<String>)
    ensures
        crate::auth::opt_view(r) == data_schema_of(
            crate::auth::opt_view(model_id),
            *device,
            *as_device,
            port@,
        ),
{
    match model_id {
        Some(m) => Some(m),
        None => {
            let lorawan = get_spec(device, as_device, "lorawan");
            let ports = member(lorawan, "ports");
            let entry = member(ports, port);
            let schema = member(entry, "data_schema");
            match schema {
                Some(v) => match v.as_str() {
                    Some(s) => Some(string_of(&crate::text::chars_of(s))),
                    None => None,
                },
                None => None,
            }
        },
    }
}

/// Which payload an uplink is published with.
#[derive(Clone, Copy, Debug, PartialEq, Eq)]
pub enum PayloadMode {
    /// The raw frame payload, as `application/octet-stream`.
    Raw,
    /// The decoded payload fields, as `application/json`.
    Fields,
    /// The whole uplink message as received.
    Full,
}

/// The payload mode the `ttn.payload` text of the device's spec names: `raw`, `fields`,
/// and anything else (or nothing) the full message.
pub open spec fn payload_mode_of(device: Device, as_device: Option<Device>) -> PayloadMode {
    match then_member(spec_section(device, as_device, "ttn"@), "payload"@) {
        Some(v) => match as_str(v) {
            Some(s) => if s == "raw"@ {
                PayloadMode::Raw
            } else if s == "fields"@ {
                PayloadMode::Fields
            } else {
                PayloadMode::Full
            },
            None => PayloadMode::Full,
        },
        None => PayloadMode::Full,
    }
}

/// Decides which payload an uplink is published with.
pub fn payload_mode(device: &Device, as_device: &Option<Device>) -> (r: PayloadMode)
    ensures
        r == payload_mode_of(*device, *as_device),
{
    let ttn = get_spec(device, as_device, "ttn");
    match member(ttn, "payload") {
        Some(v) => match v.as_str() {
            Some(s) => if str_is(s, "raw") {
                PayloadMode::Raw
            } else if str_is(s, "fields") {
                PayloadMode::Fields
            } else {
                PayloadMode::Full
            },
            None => PayloadMode::Full,
        },
        None => PayloadMode::Full,
    }
}

/// The `ttn.payload` text of the spec of the device that counts, where it is a text.
pub open spec fn ttn_payload_text(device: Device, as_device: Option<Device>) -> Option<Seq<char>> {
    match then_member(spec_section(device, as_device, "ttn"@), "payload"@) {
        Some(v) => as_str(v),
        None => None,
    }
}

/// What an uplink is published with, by the `ttn.payload` text of the counting device's
/// spec: `raw` publishes the raw payload as `application/octet-stream`, `fields` the
/// payload fields written as JSON as `application/json`, anything else (or no text) the
/// request's whole body without content type.
pub proof fn law_uplink_payload(
    device: Device,
    as_device: Option<Device>,
    raw: Seq<u8>,
    fields_text: Seq<u8>,
    body: Seq<u8>,
)
    ensures
        ttn_payload_text(device, as_device) == Some("raw"@) ==> uplink_body(
            payload_mode_of(device, as_device),
            raw,
            fields_text,
            body,
        ) == (raw, Some("application/octet-stream"@)),
        ttn_payload_text(device, as_device) == Some("fields"@) ==> uplink_body(
            payload_mode_of(device, as_device),
            raw,
            fields_text,
            body,
        ) == (fields_text, Some("application/json"@)),
        ttn_payload_text(device, as_device) != Some("raw"@) && ttn_payload_text(device, as_device)
            != Some("fields"@) ==> uplink_body(payload_mode_of(device, as_device), raw, fields_text, body)
            == (body, None::<Seq<char>>),
{
    reveal_strlit("raw");
    reveal_strlit("fields");
    assert("raw"@.len() != "fields"@.len());
    assert("raw"@ != "fields"@);
}

/// The data schema of an uplink: a given model id wins; without one, the `data_schema`
/// text that the counting device's `lorawan` spec gives for the uplink's port.
pub proof fn law_uplink_data_schema(
    model_id: Option<Seq<char>>,
    device: Device,
    as_device: Option<Device>,
    port: Seq<char>,
)
    ensures
        model_id is Some ==> data_schema_of(model_id, device, as_device, port) == model_id,
        model_id is None ==> data_schema_of(model_id, device, as_device, port) == match member_or_none(
            member_or_none(member_of(spec_device(device, as_device).spec@, "lorawan"@).unwrap_or(
                JsonValue::Null,
            ), "ports"@).unwrap_or(JsonValue::Null),
            port,
        ) {
            Some(entry) => match member_or_none(entry, "data_schema"@) {
                Some(v) => as_str(v),
                None => None,
            },
            None => None,
        },
{
}

/// The text `true` or `false` (as `bool`'s `Display`).
pub open spec fn bool_text(b: bool) -> Seq<char> {
    if b {
        "true"@
    } else {
        "false"@
    }
}

/// The text `true` or `false`.
pub fn bool_to_string(b: bool) -> (r: String)
    ensures
        r@ == bool_text(b),
{
    if b {
        "true".to_string()
    } else {
        "false".to_string()
    }
}

/// The cloud event extensions of an uplink: its port as `lorawanport`, whether it is a
/// retry as `lorawanretry` where known, and the hardware address as `hwaddr`.
pub fn uplink_extensions(port: String, is_retry: Option<bool>, hardware_address: String) -> (r: Vec<
    (String, String),
>)
    ensures
        r@.len() == if is_retry is Some { 3int } else { 2int },
        r@[0].0@ == "lorawanport"@ && r@[0].1@ == port@,
        is_retry is Some ==> r@[1].0@ == "lorawanretry"@ && r@[1].1@ == bool_text(is_retry->0),
        r@.last().0@ == "hwaddr"@ && r@.last().1@ == hardware_address@,
{
    let mut r: Vec<(String, String)> = Vec::new();
    r.push(("lorawanport".to_string(), port));
    if let Some(retry) = is_retry {
        r.push(("lorawanretry".to_string(), bool_to_string(retry)));
    }
    r.push(("hwaddr".to_string(), hardware_address));
    r
}


/// An uplink of The Things Network, in the form that both API versions map to.
#[derive(Debug)]
pub struct Uplink {
    pub device_id: String,
    pub port: String,
    /// The time of the uplink (RFC 3339).
    pub time: String,
    pub is_retry: Option<bool>,
    pub hardware_address: String,
    pub payload_raw: Vec<u8>,
    pub payload_fields: JsonValue,
}

/// The body and content type an uplink is published with: the raw payload as
/// `application/octet-stream`, the fields (`fields_text`, the fields written as JSON) as
/// `application/json`, or the request's whole body without content type.
pub open spec fn uplink_body(mode: PayloadMode, raw: Seq<u8>, fields_text: Seq<u8>, body: Seq<u8>) -> (
    Seq<u8>,
    Option<Seq<char>>,
) {
    match mode {
        PayloadMode::Raw => (raw, Some("application/octet-stream"@)),
        PayloadMode::Fields => (fields_text, Some("application/json"@)),
        PayloadMode::Full => (body, None),
    }
}

/// Builds the publish of an uplink of an authenticated device (its port as channel, its
/// time, its data schema and extensions), with the body to publish; an authentication
/// error where the device failed to authenticate. `fields_text` is the uplink's fields
/// written as JSON, `body` the request's body.
pub fn uplink_publish(
    outcome: AuthOutcome,
    opts: PublishCommonOptions,
    uplink: Uplink,
    fields_text: Vec<u8>,
    body: Vec<u8>,
) -> (r: Result<(Publish, Vec<u8>), HttpEndpointError>)
    ensures
        match outcome {
            AuthOutcome::Fail => r == Err::<(Publish, Vec<u8>), HttpEndpointError>(
                HttpEndpointError(EndpointError::AuthenticationError),
            ),
            AuthOutcome::Pass { application, device, as_device } => r matches Ok((p, b)) && {
                let mode = payload_mode_of(device, as_device);
                let (data, content_type) = uplink_body(
                    mode,
                    uplink.payload_raw@,
                    fields_text@,
                    body@,
                );
                &&& p.application == application
                &&& p.device@ == match as_device {
                    Some(a) => device_publish_id(a),
                    None => device_publish_id(device),
                }
                &&& p.sender@ == device_publish_id(device)
                &&& p.channel@ == uplink.port@
                &&& crate::auth::opt_view(p.options.time) == Some(uplink.time@)
                &&& crate::auth::opt_view(p.options.data_schema) == data_schema_of(
                    crate::auth::opt_view(opts.data_schema),
                    device,
                    as_device,
                    uplink.port@,
                )
                &&& crate::auth::opt_view(p.options.content_type) == content_type
                &&& p.options.topic is None
                &&& p.options.extensions@.len() == if uplink.is_retry is Some {
                    3int
                } else {
                    2int
                }
                &&& p.options.extensions@[0].0@ == "lorawanport"@
                &&& p.options.extensions@[0].1@ == uplink.port@
                &&& uplink.is_retry is Some ==> p.options.extensions@[1].0@ == "lorawanretry"@
                    && p.options.extensions@[1].1@ == bool_text(uplink.is_retry->0)
                &&& p.options.extensions@.last().0@ == "hwaddr"@
                &&& p.options.extensions@.last().1@ == uplink.hardware_address@
                &&& b@ == data
            },
        },
{
    match outcome {
        AuthOutcome::Fail => Err(HttpEndpointError(EndpointError::AuthenticationError)),
        AuthOutcome::Pass { application, device, as_device } => {
            let data_schema = eval_data_schema(opts.data_schema, &device, &as_device, uplink.port.as_str());
            let mode = payload_mode(&device, &as_device);
            let channel = uplink.port.clone();
            let extensions = uplink_extensions(uplink.port, uplink.is_retry, uplink.hardware_address);
            let (data, content_type) = match mode {
                PayloadMode::Raw => (uplink.payload_raw, Some("application/octet-stream".to_owned())),
                PayloadMode::Fields => (fields_text, Some("application/json".to_owned())),
                PayloadMode::Full => (body, None),
            };
            let pair = PublishIdPair::with_devices(device, as_device);
            let publish = Publish {
                application,
                device: pair.device,
                sender: pair.sender,
                channel,
                options: PublishOptions {
                    time: Some(uplink.time),
                    topic: None,
                    data_schema,
                    content_type,
                    extensions,
                },
            };
            Ok((publish, data))
        },
    }
}

/// The payload of a message of The Things Stack (API version 3).
#[derive(Debug)]
pub enum V3Payload {
    /// An uplink: its port, when it was received (RFC 3339), the frame's bytes and the
    /// decoded fields, if any.
    Uplink {
        frame_port: u16,
        received_at: String,
        frame_payload: Vec<u8>,
        decoded_payload: Option<JsonValue>,
    },
    /// Any other kind of message.
    Other,
}

/// A message of The Things Stack: the ids of its end device and its payload.
#[derive(Debug)]
pub struct V3Message {
    pub device_id: String,
    pub dev_addr: String,
    pub payload: V3Payload,
}

/// The uplink that a message of The Things Stack carries: the end device's id, the port
/// as text, the time of receipt, the device address as hardware address, the frame as raw
/// payload and the decoded fields (`null` where there are none); an invalid request where
/// the message is no uplink.
pub fn v3_uplink(msg: V3Message) -> (r: Result<Uplink, HttpEndpointError>)
    ensures
        match msg.payload {
            V3Payload::Uplink { frame_port, received_at, frame_payload, decoded_payload } => r
                matches Ok(u) && {
                &&& u.device_id == msg.device_id
                &&& u.port@ == crate::text::decimal(frame_port as nat)
                &&& u.time == received_at
                &&& u.is_retry is None
                &&& u.hardware_address == msg.dev_addr
                &&& u.payload_raw == frame_payload
                &&& u.payload_fields == match decoded_payload {
                    Some(v) => v,
                    None => JsonValue::Null,
                }
            },
            V3Payload::Other => r matches Err(HttpEndpointError(EndpointError::InvalidRequest { details }))
                && details@ == "Invalid message type, expected 'Uplink'"@,
        },
{
    match msg.payload {
        V3Payload::Uplink { frame_port, received_at, frame_payload, decoded_payload } => Ok(
            Uplink {
                device_id: msg.device_id,
                port: crate::text::decimal_text(frame_port as u64),
                time: received_at,
                is_retry: None,
                hardware_address: msg.dev_addr,
                payload_raw: frame_payload,
                payload_fields: match decoded_payload {
                    Some(v) => v,
                    None => JsonValue::Null,
                },
            },
        ),
        V3Payload::Other => Err(
            HttpEndpointError(
                EndpointError::InvalidRequest {
                    details: "Invalid message type, expected 'Uplink'".to_owned(),
                },
            ),
        ),
    }
}

/// An uplink of The Things Network's HTTP integration (API version 2).
#[derive(Debug)]
pub struct V2Uplink {
    pub dev_id: String,
    pub hardware_serial: String,
    pub port: u16,
    pub is_retry: bool,
    /// The time of the uplink (RFC 3339).
    pub time: String,
    pub payload_raw: Vec<u8>,
    pub payload_fields: JsonValue,
}

/// Builds the downstream publish of a version 2 uplink of an authenticated device, with
/// the body to publish: the port as channel, the uplink's device id, its time, its data
/// schema (by the device's own spec), the extensions `lorawanport`, `loraretry` and
/// `hwaddr`, and the payload the device's spec asks for; an authentication error where
/// the device failed to authenticate. `fields_text` is the uplink's fields written as
/// JSON, `body` the request's body.
pub fn v2_uplink_publish(
    outcome: AuthOutcome,
    opts: PublishCommonOptions,
    uplink: V2Uplink,
    fields_text: Vec<u8>,
    body: Vec<u8>,
) -> (r: Result<(DownstreamPublish, Vec<u8>), HttpEndpointError>)
    ensures
        match outcome {
            AuthOutcome::Fail => r == Err::<(DownstreamPublish, Vec<u8>), HttpEndpointError>(
                HttpEndpointError(EndpointError::AuthenticationError),
            ),
            AuthOutcome::Pass { application, device, .. } => r matches Ok((p, b)) && {
                let port = crate::text::decimal(uplink.port as nat);
                let (data, content_type) = uplink_body(
                    payload_mode_of(device, None),
                    uplink.payload_raw@,
                    fields_text@,
                    body@,
                );
                &&& p.channel@ == port
                &&& p.app_id@ == application.name@
                &&& p.device_id == uplink.dev_id
                &&& crate::auth::opt_view(p.options.time) == Some(uplink.time@)
                &&& crate::auth::opt_view(p.options.data_schema) == data_schema_of(
                    crate::auth::opt_view(opts.data_schema),
                    device,
                    None,
                    port,
                )
                &&& crate::auth::opt_view(p.options.content_type) == content_type
                &&& p.options.topic is None
                &&& p.options.extensions@.map_values(|e: (String, String)| (e.0@, e.1@)) == seq![
                    ("lorawanport"@, port),
                    ("loraretry"@, bool_text(uplink.is_retry)),
                    ("hwaddr"@, uplink.hardware_serial@),
                ]
                &&& b@ == data
            },
        },
{
    match outcome {
        AuthOutcome::Fail => Err(HttpEndpointError(EndpointError::AuthenticationError)),
        AuthOutcome::Pass { application, device, .. } => {
            let no_device: Option<Device> = None;
            let port = crate::text::decimal_text(uplink.port as u64);
            let data_schema = eval_data_schema(opts.data_schema, &device, &no_device, port.as_str());
            let mode = payload_mode(&device, &no_device);
            let mut extensions: Vec<(String, String)> = Vec::new();
            extensions.push(("lorawanport".to_owned(), port.clone()));
            extensions.push(("loraretry".to_owned(), bool_to_string(uplink.is_retry)));
            extensions.push(("hwaddr".to_owned(), uplink.hardware_serial));
            proof {
                assert(extensions@.map_values(|e: (String, String)| (e.0@, e.1@)) =~= seq![
                    ("lorawanport"@, port@),
                    ("loraretry"@, bool_text(uplink.is_retry)),
                    ("hwaddr"@, uplink.hardware_serial@),
                ]);
            }
            let (data, content_type) = match mode {
                PayloadMode::Raw => (uplink.payload_raw, Some("application/octet-stream".to_owned())),
                PayloadMode::Fields => (fields_text, Some("application/json".to_owned())),
                PayloadMode::Full => (body, None),
            };
            let publish = DownstreamPublish {
                channel: port,
                app_id: application.name,
                device_id: uplink.dev_id,
                options: PublishOptions {
                    time: Some(uplink.time),
                    topic: None,
                    data_schema,
                    content_type,
                    extensions,
                },
            };
            Ok((publish, data))
        },
    }
}

} // verus!
