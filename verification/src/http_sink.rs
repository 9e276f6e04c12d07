//! The plain HTTP endpoint that forwards messages to a cloud events sink.
use crate::event::{Data, DataModel, Event, EventModel, ExtensionModel};
use crate::json::JsonValue;
use vstd::prelude::*;

verus! {

/// A publish: the channel the message is sent to.
#[derive(Clone, Debug, PartialEq, Eq)]
pub struct Publish {
    pub channel: String,
}

/// Whether the sink took the message.
#[derive(Clone, Copy, Debug, PartialEq, Eq)]
pub enum Outcome {
    Accepted,
    Rejected,
}

/// The answer to a publish.
#[derive(Clone, Copy, Debug, PartialEq, Eq)]
pub struct PublishResponse {
    pub outcome: Outcome,
}

/// The event of a message: the id given, the endpoint's source and type, the channel as
/// subject, and the body as JSON (`text/json`) where it parses (`parsed`), else as bytes.
pub open spec fn sink_event_of(channel: Seq<char>, id: Seq<char>, body: Seq<u8>, parsed: Option<JsonValue>) -> EventModel {
    EventModel {
        id,
        ty: "de.dentrassi.iot.message"@,
        source: "https://dentrassi.de/iot"@,
        subject: Some(channel),
        time: None,
        datacontenttype: Some(
            match parsed {
                Some(_) => "text/json"@,
                None => "application/octet-stream"@,
            },
        ),
        dataschema: None,
        extensions: Seq::empty(),
        data: Some(
            match parsed {
                Some(v) => DataModel::Json(v),
                None => DataModel::Binary(body),
            },
        ),
    }
}

/// Builds the event of a message; `parsed` is the JSON that the body parses to, if any.
pub fn sink_event(publish: &Publish, id: String, body: Vec<u8>, parsed: Option<JsonValue>) -> (r: Event)
    ensures
        r@ == sink_event_of(publish.channel@, id@, body@, parsed),
{
    let (content_type, data) = match parsed {
        Some(v) => ("text/json".to_owned(), Data::Json(v)),
        None => ("application/octet-stream".to_owned(), Data::Binary(body)),
    };
    let r = Event {
        id,
        ty: "de.dentrassi.iot.message".to_owned(),
        source: "https://dentrassi.de/iot".to_owned(),
        subject: Some(publish.channel.clone()),
        time: None,
        datacontenttype: Some(content_type),
        dataschema: None,
        extensions: Vec::new(),
        data: Some(data),
    };
    assert(r@.extensions =~= Seq::<ExtensionModel>::empty());
    r
}

/// Builds the event of a message with a fresh random id; `parsed` is the JSON that the
/// body parses to, if any.
pub fn new_sink_event(publish: &Publish, body: Vec<u8>, parsed: Option<JsonValue>) -> (r: Event)
    ensures
        r@.id.len() == 36,
        r@ == sink_event_of(publish.channel@, r@.id, body@, parsed),
{
    let id = crate::event::new_uuid_text();
    sink_event(publish, id, body, parsed)
}

/// The answer to a publish, by the status of the sink's response: accepted for a success
/// (200 to 299), else rejected.
pub fn publish_response(status: u16) -> (r: PublishResponse)
    ensures
        r.outcome == if 200 <= status < 300 {
            Outcome::Accepted
        } else {
            Outcome::Rejected
        },
{
    if 200 <= status && status < 300 {
        PublishResponse { outcome: Outcome::Accepted }
    } else {
        PublishResponse { outcome: Outcome::Rejected }
    }
}

} // verus!
