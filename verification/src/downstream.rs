//! Publishing events downstream, to the application's event target, as the plain
//! endpoints do it: without the rules engine, with the content type as it is given.
use crate::event::{extension_of, with_extension, Data, DataModel, Event, EventModel, ExtensionModel, ExtensionValueModel};
use crate::json::JsonValue;
use crate::command::string_extension;
use crate::sender::{
    lemma_with_extensions_last, lemma_with_extensions_other, none_named, percent_encode, percent_encoded,
    set_string_extension, source_of, with_extensions, PublishOptions,
};
use crate::text::{concat, join2};
use vstd::prelude::*;
use vstd::utf8::encode_utf8;

verus! {

/// A publish of a device.
#[derive(Debug)]
pub struct Publish {
    pub app_id: String,
    pub device_id: String,
    pub channel: String,
    pub options: PublishOptions,
}

/// Why a downstream publish failed.
#[derive(Debug, PartialEq, Eq)]
pub enum DownstreamError<E> {
    /// The event could not be built; why.
    Build(String),
    /// The event could not be turned into a message; why.
    Event(String),
    /// The transport failed.
    Transport(E),
}

/// The extensions that a downstream publish sets, in order.
pub open spec fn downstream_extension_list(publish: Publish, source: Seq<char>, instance: Seq<char>) -> Seq<
    (Seq<char>, Seq<char>),
> {
    seq![
        ("application"@, publish.app_id@),
        ("device"@, publish.device_id@),
        ("partitionkey"@, source),
        ("instance"@, instance),
    ] + match publish.options.data_schema {
        Some(d) => seq![("dataschema"@, d@)],
        None => Seq::empty(),
    } + publish.options.extensions@.map_values(|e: (String, String)| (e.0@, e.1@))
}

/// The data of a downstream event and its content type: the body as bytes of the given
/// content type; without one, JSON where the body parses (`parsed`), else bytes.
pub open spec fn downstream_data(content_type: Option<Seq<char>>, body: Seq<u8>, parsed: Option<JsonValue>) -> (
    Seq<char>,
    DataModel,
) {
    match content_type {
        Some(t) => (t, DataModel::Binary(body)),
        None => match parsed {
            Some(v) => ("application/json"@, DataModel::Json(v)),
            None => ("application/octet-stream"@, DataModel::Binary(body)),
        },
    }
}

/// The event of a downstream publish: id and time as given, the default event type, the
/// device's source, the channel as subject, the publish's extensions, and the body.
pub open spec fn downstream_event_of(
    publish: Publish,
    instance: Seq<char>,
    id: Seq<char>,
    time: Seq<char>,
    body: Seq<u8>,
    parsed: Option<JsonValue>,
) -> EventModel {
    let source = source_of(encode_utf8(publish.app_id@), encode_utf8(publish.device_id@));
    let (content_type, data) = downstream_data(
        match publish.options.content_type {
            Some(t) => Some(t@),
            None => None,
        },
        body,
        parsed,
    );
    EventModel {
        id,
        ty: "io.drogue.event.v1"@,
        source: "drogue://"@ + source,
        subject: Some(publish.channel@),
        time: Some(time),
        datacontenttype: Some(content_type),
        dataschema: None,
        extensions: with_extensions(Seq::empty(), downstream_extension_list(publish, source, instance)),
        data: Some(data),
    }
}

/// The extension list puts the four fixed extensions first, then the data schema, then the
/// publish's own extensions.
proof fn lemma_downstream_list_shape(publish: Publish, source: Seq<char>, instance: Seq<char>)
    ensures
        ({
            let l = downstream_extension_list(publish, source, instance);
            let b: int = if publish.options.data_schema is Some { 5 } else { 4 };
            let users = publish.options.extensions@;
            &&& l.len() == b + users.len()
            &&& l[0] == ("application"@, publish.app_id@)
            &&& l[1] == ("device"@, publish.device_id@)
            &&& l[2] == ("partitionkey"@, source)
            &&& l[3] == ("instance"@, instance)
            &&& publish.options.data_schema matches Some(d) ==> l[4] == ("dataschema"@, d@)
            &&& forall|k: int| 0 <= k < users.len() ==> l[b + k] == ((#[trigger] users[k]).0@, users[k].1@)
        }),
{
    let l = downstream_extension_list(publish, source, instance);
    let users = publish.options.extensions@;
    let c = users.map_values(|e: (String, String)| (e.0@, e.1@));
    let ab = seq![
        ("application"@, publish.app_id@),
        ("device"@, publish.device_id@),
        ("partitionkey"@, source),
        ("instance"@, instance),
    ] + match publish.options.data_schema {
        Some(d) => seq![("dataschema"@, d@)],
        None => Seq::empty(),
    };
    assert(l == ab + c);
    assert forall|k: int| 0 <= k < users.len() implies l[ab.len() + k] == (
        (#[trigger] users[k]).0@,
        users[k].1@,
    ) by {
        assert(c[k] == (users[k].0@, users[k].1@));
    }
}

/// A fixed extension of a downstream event reads as its value where no later entry of the
/// list has its name.
proof fn lemma_downstream_fixed(publish: Publish, source: Seq<char>, instance: Seq<char>, k: int)
    requires
        0 <= k < (if publish.options.data_schema is Some { 5int } else { 4int }),
        none_named(publish.options.extensions@, downstream_extension_list(publish, source, instance)[k].0),
        forall|j: int|
            k < j < (if publish.options.data_schema is Some { 5int } else { 4int }) ==> (
            #[trigger] downstream_extension_list(publish, source, instance)[j]).0
                != downstream_extension_list(publish, source, instance)[k].0,
    ensures
        extension_of(
            with_extensions(Seq::empty(), downstream_extension_list(publish, source, instance)),
            downstream_extension_list(publish, source, instance)[k].0,
        ) == Some(ExtensionValueModel::String(downstream_extension_list(publish, source, instance)[k].1)),
{
    let l = downstream_extension_list(publish, source, instance);
    let b: int = if publish.options.data_schema is Some { 5 } else { 4 };
    let users = publish.options.extensions@;
    lemma_downstream_list_shape(publish, source, instance);
    assert forall|j: int| k < j < l.len() implies (#[trigger] l[j]).0 != l[k].0 by {
        if j >= b {
            let u = j - b;
            assert(l[b + u] == (users[u].0@, users[u].1@));
        }
    }
    lemma_with_extensions_last(Seq::empty(), l, k);
}

/// The extensions of a downstream event: `application`, `device`, `partitionkey` (the
/// device's source) and `instance` read as the publish's values, and `dataschema` as the
/// publish's data schema (absent without one), each unless one of the publish's own
/// extensions has that name; and each of the publish's own extensions reads as the last
/// value the publish gives it. The event's subject is the channel, its source the device's
/// source under `drogue://`, and it has the given id and time.
pub proof fn law_downstream_event(
    publish: Publish,
    instance: Seq<char>,
    id: Seq<char>,
    time: Seq<char>,
    body: Seq<u8>,
    parsed: Option<JsonValue>,
    ev: EventModel,
)
    requires
        ev == downstream_event_of(publish, instance, id, time, body, parsed),
    ensures
        ev.id == id,
        ev.time == Some(time),
        ev.subject == Some(publish.channel@),
        ev.ty == "io.drogue.event.v1"@,
        publish.options.content_type matches Some(t) ==> ev.datacontenttype == Some(t@) && ev.data == Some(
            DataModel::Binary(body),
        ),
        publish.options.content_type is None && parsed is Some ==> ev.datacontenttype == Some(
            "application/json"@,
        ) && ev.data == Some(DataModel::Json(parsed->0)),
        publish.options.content_type is None && parsed is None ==> ev.datacontenttype == Some(
            "application/octet-stream"@,
        ) && ev.data == Some(DataModel::Binary(body)),
        ev.source == "drogue://"@ + source_of(encode_utf8(publish.app_id@), encode_utf8(publish.device_id@)),
        none_named(publish.options.extensions@, "application"@) ==> string_extension(ev.extensions, "application"@)
            == Some(publish.app_id@),
        none_named(publish.options.extensions@, "device"@) ==> string_extension(ev.extensions, "device"@)
            == Some(publish.device_id@),
        none_named(publish.options.extensions@, "partitionkey"@) ==> string_extension(
            ev.extensions,
            "partitionkey"@,
        ) == Some(source_of(encode_utf8(publish.app_id@), encode_utf8(publish.device_id@))),
        none_named(publish.options.extensions@, "instance"@) ==> string_extension(ev.extensions, "instance"@)
            == Some(instance),
        none_named(publish.options.extensions@, "dataschema"@) ==> string_extension(
            ev.extensions,
            "dataschema"@,
        ) == match publish.options.data_schema {
            Some(d) => Some(d@),
            None => None,
        },
        forall|k: int|
            0 <= k < publish.options.extensions@.len() && (forall|j: int|
                k < j < publish.options.extensions@.len() ==> (#[trigger] publish.options.extensions@[j]).0@
                    != publish.options.extensions@[k].0@) ==> string_extension(
                ev.extensions,
                (#[trigger] publish.options.extensions@[k]).0@,
            ) == Some(publish.options.extensions@[k].1@),
{
    let source = source_of(encode_utf8(publish.app_id@), encode_utf8(publish.device_id@));
    let l = downstream_extension_list(publish, source, instance);
    let b: int = if publish.options.data_schema is Some { 5 } else { 4 };
    let users = publish.options.extensions@;
    lemma_downstream_list_shape(publish, source, instance);
    reveal_strlit("application");
    reveal_strlit("device");
    reveal_strlit("partitionkey");
    reveal_strlit("instance");
    reveal_strlit("dataschema");
    assert("application"@.len() == 11 && "device"@.len() == 6 && "partitionkey"@.len() == 12);
    assert("instance"@.len() == 8 && "dataschema"@.len() == 10);
    if none_named(users, "application"@) {
        lemma_downstream_fixed(publish, source, instance, 0);
    }
    if none_named(users, "device"@) {
        lemma_downstream_fixed(publish, source, instance, 1);
    }
    if none_named(users, "partitionkey"@) {
        lemma_downstream_fixed(publish, source, instance, 2);
    }
    if none_named(users, "instance"@) {
        lemma_downstream_fixed(publish, source, instance, 3);
    }
    if none_named(users, "dataschema"@) {
        match publish.options.data_schema {
            Some(d) => lemma_downstream_fixed(publish, source, instance, 4),
            None => {
                assert forall|j: int| 0 <= j < l.len() implies (#[trigger] l[j]).0 != "dataschema"@ by {
                    if j >= b {
                        let u = j - b;
                        assert(l[b + u] == (users[u].0@, users[u].1@));
                    }
                }
                lemma_with_extensions_other(Seq::empty(), l, "dataschema"@);
                assert(crate::event::extension_names(Seq::<ExtensionModel>::empty()) =~= Seq::empty());
            },
        }
    }
    assert forall|k: int|
        0 <= k < users.len() && (forall|j: int|
            k < j < users.len() ==> (#[trigger] users[j]).0@ != users[k].0@) implies string_extension(
        ev.extensions,
        (#[trigger] users[k]).0@,
    ) == Some(users[k].1@) by {
        assert(l[b + k] == (users[k].0@, users[k].1@));
        assert forall|j: int| b + k < j < l.len() implies (#[trigger] l[j]).0 != l[b + k].0 by {
            let u = j - b;
            assert(l[b + u] == (users[u].0@, users[u].1@));
        }
        lemma_with_extensions_last(Seq::empty(), l, b + k);
    }
}

/// Builds the event of a downstream publish with a fresh random id and the current time;
/// `parsed` is the JSON that the body parses to, if any. Whatever id and time came back,
/// the event is the one that the publish makes with them.
pub fn new_downstream_event(publish: &Publish, instance: &str, body: Vec<u8>, parsed: Option<JsonValue>) -> (r:
    Event)
    ensures
        r@.id.len() == 36,
        r@.time is Some,
        r@ == downstream_event_of(*publish, instance@, r@.id, r@.time->0, body@, parsed),
{
    let id = crate::event::new_uuid_text();
    let time = crate::event::now_rfc3339();
    downstream_event(publish, instance, id, time, body, parsed)
}

/// Builds the event of a downstream publish; `id` is the event's (random) id, `time` its
/// time, `parsed` the JSON that the body parses to, if any.
pub fn downstream_event(
    publish: &Publish,
    instance: &str,
    id: String,
    time: String,
    body: Vec<u8>,
    parsed: Option<JsonValue>,
) -> (r: Event)
    ensures
        r@ == downstream_event_of(*publish, instance@, id@, time@, body@, parsed),
{
    let (content_type, data) = match &publish.options.content_type {
        Some(t) => (t.clone(), Data::Binary(body)),
        None => match parsed {
            Some(v) => ("application/json".to_owned(), Data::Json(v)),
            None => ("application/octet-stream".to_owned(), Data::Binary(body)),
        },
    };
    let app_enc = percent_encode(publish.app_id.as_str());
    let device_enc = percent_encode(publish.device_id.as_str());
    let source = join2(app_enc.as_str(), '/', device_enc.as_str());
    let mut event = Event {
        id,
        ty: "io.drogue.event.v1".to_owned(),
        source: concat("drogue://", source.as_str()),
        subject: Some(publish.channel.clone()),
        time: Some(time),
        datacontenttype: Some(content_type),
        dataschema: None,
        extensions: Vec::new(),
        data: Some(data),
    };
    let ghost list = downstream_extension_list(*publish, source@, instance@);
    let ghost base = event@;
    proof {
        assert(base.extensions =~= Seq::<ExtensionModel>::empty());
    }
    let mut pairs: Vec<(&str, &str)> = Vec::new();
    pairs.push(("application", publish.app_id.as_str()));
    pairs.push(("device", publish.device_id.as_str()));
    pairs.push(("partitionkey", source.as_str()));
    pairs.push(("instance", instance));
    let ghost part1 = seq![
        ("application"@, publish.app_id@),
        ("device"@, publish.device_id@),
        ("partitionkey"@, source@),
        ("instance"@, instance@),
    ];
    assert(pairs@.map_values(|p: (&str, &str)| (p.0@, p.1@)) =~= part1);
    match &publish.options.data_schema {
        Some(d) => pairs.push(("dataschema", d.as_str())),
        None => {},
    }
    let ghost part2 = part1 + match &publish.options.data_schema {
        Some(d) => seq![("dataschema"@, d@)],
        None => Seq::empty(),
    };
    assert(pairs@.map_values(|p: (&str, &str)| (p.0@, p.1@)) =~= part2);
    let ghost fixed = pairs@;
    let mut j: usize = 0;
    while j < publish.options.extensions.len()
        invariant
            j <= publish.options.extensions@.len(),
            pairs@.len() == fixed.len() + j,
            pairs@.take(fixed.len() as int) == fixed,
            forall|k: int|
                0 <= k < j ==> (#[trigger] pairs@[fixed.len() + k]).0@
                    == publish.options.extensions@[k].0@ && pairs@[fixed.len() + k].1@
                    == publish.options.extensions@[k].1@,
        decreases publish.options.extensions@.len() - j,
    {
        let (k, v) = &publish.options.extensions[j];
        let ghost before = pairs@;
        pairs.push((k.as_str(), v.as_str()));
        assert(pairs@.take(fixed.len() as int) =~= before.take(fixed.len() as int));
        j += 1;
    }
    proof {
        let m = pairs@.map_values(|p: (&str, &str)| (p.0@, p.1@));
        let exts = publish.options.extensions@.map_values(|e: (String, String)| (e.0@, e.1@));
        assert(m.take(fixed.len() as int) =~= fixed.map_values(|p: (&str, &str)| (p.0@, p.1@)));
        assert forall|k: int| 0 <= k < exts.len() implies m[fixed.len() + k] == exts[k] by {
            assert(pairs@[fixed.len() + k].0@ == publish.options.extensions@[k].0@);
        }
        assert(m =~= m.take(fixed.len() as int) + exts);
        assert(list =~= part2 + exts);
    }
    assert(pairs@.map_values(|p: (&str, &str)| (p.0@, p.1@)) =~= list);
    let mut i: usize = 0;
    assert(list.take(0) =~= Seq::<(Seq<char>, Seq<char>)>::empty());
    while i < pairs.len()
        invariant
            list == pairs@.map_values(|p: (&str, &str)| (p.0@, p.1@)),
            i <= pairs@.len(),
            event@ == (EventModel {
                extensions: with_extensions(Seq::empty(), list.take(i as int)),
                ..base
            }),
        decreases pairs@.len() - i,
    {
        let (k, v) = pairs[i];
        assert(list.take(i + 1).drop_last() =~= list.take(i as int));
        set_string_extension(&mut event, k, v);
        i += 1;
    }
    assert(list.take(i as int) =~= list);
    event
}

/// The key of an event in Kafka: its `partitionkey` extension where that is a string,
/// else its id.
pub open spec fn partition_key_of(ev: EventModel) -> Seq<char> {
    match crate::command::string_extension(ev.extensions, "partitionkey"@) {
        Some(k) => k,
        None => ev.id,
    }
}

/// The key of an event in Kafka.
pub fn partition_key(event: &Event) -> (r: String)
    ensures
        r@ == partition_key_of(event@),
{
    match crate::command::get_string_extension(event, "partitionkey") {
        Some(k) => k.clone(),
        None => event.id.clone(),
    }
}

} // verus!
