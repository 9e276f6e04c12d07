//! Events read from Kafka: the settings of the consumer, and the repair of an event's data
//! whose form does not match its declared content type.
use crate::auth::utf8_string;
use crate::event::{Data, DataModel, Event, EventModel};
use crate::json::JsonValue;
use crate::kafka::KafkaClientConfig;
use crate::sender::{is_json, is_json_type};
use crate::text::{has_prefix, replace_all, replaced, str_starts_with};
use vstd::prelude::*;
use vstd::utf8::{decode_utf8, valid_utf8};

verus! {

/// What the content type of an event declares its data to be.
#[derive(Debug, Clone, Copy, PartialEq, Eq)]
pub enum DeclaredContentType {
    Json,
    String,
    Other,
}

/// A plain text content type: one starting with `text/plain`.
pub open spec fn is_text_type(content_type: Seq<char>) -> bool {
    has_prefix(content_type, "text/plain"@)
}

/// What a content type declares: JSON first, then plain text, else something other.
pub open spec fn declared(content_type: Option<Seq<char>>) -> DeclaredContentType {
    match content_type {
        Some(ct) => if is_json_type(ct) {
            DeclaredContentType::Json
        } else if is_text_type(ct) {
            DeclaredContentType::String
        } else {
            DeclaredContentType::Other
        },
        None => DeclaredContentType::Other,
    }
}

impl DeclaredContentType {
    /// What the content type declares.
    pub fn detect(content_type: Option<&str>) -> (r: DeclaredContentType)
        ensures
            r == declared(
                match content_type {
                    Some(t) => Some(t@),
                    None => None,
                },
            ),
    {
        match content_type {
            Some(ct) => if DeclaredContentType::is_json_content_type(ct) {
                DeclaredContentType::Json
            } else if DeclaredContentType::is_text_content_type(ct) {
                DeclaredContentType::String
            } else {
                DeclaredContentType::Other
            },
            None => DeclaredContentType::Other,
        }
    }

    /// Whether the content type indicates a JSON payload.
    pub fn is_json_content_type(content_type: &str) -> (r: bool)
        ensures
            r == is_json_type(content_type@),
    {
        is_json(content_type)
    }

    /// Whether the content type indicates a plain text payload.
    pub fn is_text_content_type(content_type: &str) -> (r: bool)
        ensures
            r == is_text_type(content_type@),
    {
        str_starts_with(content_type, "text/plain")
    }
}

/// Data as JSON: the parsed JSON of text or bytes where they are JSON (`parsed`), else the
/// data unchanged.
pub open spec fn json_data(data: DataModel, parsed: Option<JsonValue>) -> DataModel {
    match data {
        DataModel::Json(_) => data,
        _ => match parsed {
            Some(v) => DataModel::Json(v),
            None => data,
        },
    }
}

/// Data as text: JSON written as text (`json_text`), bytes decoded where they are valid
/// UTF-8, else the data unchanged.
pub open spec fn string_data(data: DataModel, json_text: Option<Seq<char>>) -> DataModel {
    match data {
        DataModel::Json(_) => match json_text {
            Some(t) => DataModel::String(t),
            None => data,
        },
        DataModel::Binary(b) => if valid_utf8(b) {
            DataModel::String(decode_utf8(b))
        } else {
            data
        },
        DataModel::String(_) => data,
    }
}

/// Turns data into JSON; `parsed` is the JSON that its text or bytes parse to, if any.
pub fn make_json(data: Data, parsed: Option<JsonValue>) -> (r: Data)
    ensures
        r@ == json_data(data@, parsed),
{
    match data {
        Data::Json(v) => Data::Json(v),
        other => match parsed {
            Some(v) => Data::Json(v),
            None => other,
        },
    }
}

/// Turns data into text; `json_text` is JSON data written as text.
pub fn make_string(data: Data, json_text: Option<String>) -> (r: Data)
    ensures
        r@ == string_data(
            data@,
            match json_text {
                Some(t) => Some(t@),
                None => None,
            },
        ),
{
    match data {
        Data::Json(v) => match json_text {
            Some(t) => Data::String(t),
            None => Data::Json(v),
        },
        Data::Binary(b) => match utf8_string(b) {
            Ok(s) => Data::String(s),
            Err(b) => Data::Binary(b),
        },
        Data::String(s) => Data::String(s),
    }
}

/// The event with its data in the form that its content type declares: JSON data for a
/// JSON type, text for a plain text type; other events stay as they are. `parsed` is the
/// JSON that the data's text or bytes parse to, `json_text` JSON data written as text.
pub open spec fn fixed_up(ev: EventModel, parsed: Option<JsonValue>, json_text: Option<Seq<char>>) -> EventModel {
    match ev.data {
        None => ev,
        Some(d) => match declared(ev.datacontenttype) {
            DeclaredContentType::Json => EventModel { data: Some(json_data(d, parsed)), ..ev },
            DeclaredContentType::String => EventModel {
                data: Some(string_data(d, json_text)),
                ..ev
            },
            DeclaredContentType::Other => ev,
        },
    }
}

/// Ensures that the data of an event is in the form that its content type declares.
pub fn fixup_data_type(event: Event, parsed: Option<JsonValue>, json_text: Option<String>) -> (r: Event)
    ensures
        r@ == fixed_up(
            event@,
            parsed,
            match json_text {
                Some(t) => Some(t@),
                None => None,
            },
        ),
{
    let declared = match &event.datacontenttype {
        Some(ct) => DeclaredContentType::detect(Some(ct.as_str())),
        None => DeclaredContentType::detect(None),
    };
    let mut event = event;
    match declared {
        DeclaredContentType::Other => event,
        DeclaredContentType::Json => {
            let data = event.data.take();
            event.data = match data {
                Some(d) => Some(make_json(d, parsed)),
                None => None,
            };
            event
        },
        DeclaredContentType::String => {
            let data = event.data.take();
            event.data = match data {
                Some(d) => Some(make_string(d, json_text)),
                None => None,
            };
            event
        },
    }
}

/// How a consumer acknowledges events.
pub trait AckMode {
    /// Whether offsets are stored automatically (`enable.auto.offset.store`).
    spec fn stores_offsets() -> bool;

    /// Whether offsets are stored automatically.
    fn auto_offset_store() -> (r: bool)
        ensures
            r == Self::stores_offsets(),
    ;
}

/// Offsets are stored automatically.
#[derive(Debug, Clone, Copy)]
pub struct AutoAck;

/// Offsets are stored by the consumer, event by event.
#[derive(Debug, Clone, Copy)]
pub struct CustomAck;

impl AckMode for AutoAck {
    open spec fn stores_offsets() -> bool {
        true
    }

    fn auto_offset_store() -> (r: bool) {
        true
    }
}

impl AckMode for CustomAck {
    open spec fn stores_offsets() -> bool {
        false
    }

    fn auto_offset_store() -> (r: bool) {
        false
    }
}

/// What an event stream reads: a topic, with these Kafka settings and an optional
/// consumer group.
#[derive(Clone, Debug, PartialEq, Eq)]
pub struct EventStreamConfig {
    pub kafka: KafkaClientConfig,
    pub topic: String,
    pub consumer_group: Option<String>,
}

/// The consumer group of a stream: the configured one, else a fresh anonymous group
/// `anonymous.<random id>`.
pub fn consumer_group(cfg: &EventStreamConfig) -> (r: String)
    ensures
        match cfg.consumer_group {
            Some(g) => r@ == g@,
            None => r@.len() == 46 && r@.take(10) == "anonymous."@,
        },
{
    match &cfg.consumer_group {
        Some(g) => g.clone(),
        None => {
            let id = crate::event::new_uuid_text();
            let r = crate::text::concat("anonymous.", id.as_str());
            proof {
                reveal_strlit("anonymous.");
                assert(r@.take(10) =~= "anonymous."@);
            }
            r
        },
    }
}

/// The text of a flag.
pub open spec fn flag_text(b: bool) -> Seq<char> {
    if b {
        "true"@
    } else {
        "false"@
    }
}

/// The settings of a consumer, each applied in turn (a later one overriding an earlier
/// one of the same name): the defaults, the client properties (with `_` read as `.`), the
/// consumer group and whether offsets are stored automatically.
pub open spec fn consumer_settings_of(cfg: EventStreamConfig, group_id: Seq<char>, auto_store: bool) -> Seq<
    (Seq<char>, Seq<char>),
> {
    seq![
        ("bootstrap.servers"@, cfg.kafka.bootstrap_servers@),
        ("enable.partition.eof"@, "false"@),
        ("session.timeout.ms"@, "6000"@),
        ("auto.commit.interval.ms"@, "5000"@),
        ("enable.auto.commit"@, "true"@),
    ] + cfg.kafka.properties@.map_values(
        |p: (String, String)| (replaced(p.0@, "_"@, "."@), p.1@),
    ) + seq![("group.id"@, group_id), ("enable.auto.offset.store"@, flag_text(auto_store))]
}

/// The settings of a consumer of the stream, in the consumer group `group_id`.
pub fn consumer_settings<A: AckMode>(cfg: &EventStreamConfig, group_id: &str) -> (r: Vec<(String, String)>)
    requires
        cfg.kafka.wf(),
    ensures
        r@.map_values(|p: (String, String)| (p.0@, p.1@)) == consumer_settings_of(
            *cfg,
            group_id@,
            A::stores_offsets(),
        ),
{
    let mut r: Vec<(String, String)> = vec![
        ("bootstrap.servers".to_owned(), cfg.kafka.bootstrap_servers.clone()),
        ("enable.partition.eof".to_owned(), "false".to_owned()),
        ("session.timeout.ms".to_owned(), "6000".to_owned()),
        ("auto.commit.interval.ms".to_owned(), "5000".to_owned()),
        ("enable.auto.commit".to_owned(), "true".to_owned()),
    ];
    let ghost head = r@.map_values(|p: (String, String)| (p.0@, p.1@));
    assert(head =~= seq![
        ("bootstrap.servers"@, cfg.kafka.bootstrap_servers@),
        ("enable.partition.eof"@, "false"@),
        ("session.timeout.ms"@, "6000"@),
        ("auto.commit.interval.ms"@, "5000"@),
        ("enable.auto.commit"@, "true"@),
    ]);
    let ghost props = cfg.kafka.properties@.map_values(
        |p: (String, String)| (replaced(p.0@, "_"@, "."@), p.1@),
    );
    proof {
        reveal_strlit("_");
    }
    let mut i: usize = 0;
    while i < cfg.kafka.properties.len()
        invariant
            i <= cfg.kafka.properties@.len(),
            props == cfg.kafka.properties@.map_values(
                |p: (String, String)| (replaced(p.0@, "_"@, "."@), p.1@),
            ),
            "_"@.len() > 0,
            r@.map_values(|p: (String, String)| (p.0@, p.1@)) == head + props.take(i as int),
        decreases cfg.kafka.properties@.len() - i,
    {
        let (k, v) = &cfg.kafka.properties[i];
        let ghost before = r@;
        r.push((replace_all(k.as_str(), "_", "."), v.clone()));
        assert(r@.map_values(|p: (String, String)| (p.0@, p.1@)) =~= before.map_values(
            |p: (String, String)| (p.0@, p.1@),
        ).push(props[i as int]));
        assert(props.take(i + 1) =~= props.take(i as int).push(props[i as int]));
        i += 1;
    }
    assert(props.take(i as int) =~= props);
    let auto_store = A::auto_offset_store();
    let ghost before = r@;
    r.push(("group.id".to_owned(), group_id.to_owned()));
    r.push(
        (
            "enable.auto.offset.store".to_owned(),
            if auto_store {
                "true".to_owned()
            } else {
                "false".to_owned()
            },
        ),
    );
    assert(r@.map_values(|p: (String, String)| (p.0@, p.1@)) =~= before.map_values(
        |p: (String, String)| (p.0@, p.1@),
    ) + seq![("group.id"@, group_id@), ("enable.auto.offset.store"@, flag_text(auto_store))]);
    r
}

} // verus!
