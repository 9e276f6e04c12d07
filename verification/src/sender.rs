//! Publishing events: identities of the publishing devices, the event that a publish
//! builds, and what becomes of its outcome.
use crate::event::{
    with_extension, Data, DataModel, Event, EventModel, ExtensionModel, ExtensionValue,
    ExtensionValueModel,
};
use crate::id::Id;
use crate::json::JsonValue;
use crate::process::{Outcome, OutcomeModel};
use crate::registry::{Application, Device};
use crate::text::{concat, has_prefix, has_suffix, join2, str_ends_with, str_starts_with};
use vstd::prelude::*;
use vstd::utf8::encode_utf8;

verus! {

/// A JSON content type: one starting with `application/json` or `text/json`, or one with
/// the `+json` suffix.
pub open spec fn is_json_type(content_type: Seq<char>) -> bool {
    has_prefix(content_type, "application/json"@) || has_prefix(content_type, "text/json"@)
        || has_suffix(content_type, "+json"@)
}

/// Whether the content type is a JSON one.
pub fn is_json(content_type: &str) -> (r: bool)
    ensures
        r == is_json_type(content_type@),
{
    str_starts_with(content_type, "application/json") || str_starts_with(content_type, "text/json")
        || str_ends_with(content_type, "+json")
}


/// The identity of a device that publishes: its name and, where known, its uid.
#[derive(Clone, Debug, PartialEq, Eq)]
pub struct PublishId {
    pub name: String,
    pub uid: Option<String>,
}

/// The mathematical value of a [`PublishId`].
pub struct PublishIdModel {
    pub name: Seq<char>,
    pub uid: Option<Seq<char>>,
}

impl View for PublishId {
    type V = PublishIdModel;

    open spec fn view(&self) -> PublishIdModel {
        PublishIdModel {
            name: self.name@,
            uid: match self.uid {
                Some(u) => Some(u@),
                None => None,
            },
        }
    }
}

/// The identity of a device of the registry: its name and uid.
pub open spec fn device_publish_id(d: Device) -> PublishIdModel {
    PublishIdModel { name: d.name@, uid: Some(d.uid@) }
}

/// Makes a publish id of a value, consuming it.
pub trait IntoPublishId {
    fn into_id(self) -> PublishId;
}

/// Makes a publish id of a value.
pub trait ToPublishId {
    fn to_id(&self) -> PublishId;
}

impl IntoPublishId for String {
    /// A name without uid.
    fn into_id(self) -> (r: PublishId)
        ensures
            r@ == (PublishIdModel { name: self@, uid: None }),
    {
        PublishId { name: self, uid: None }
    }
}

impl ToPublishId for String {
    /// A name without uid.
    fn to_id(&self) -> (r: PublishId)
        ensures
            r@ == (PublishIdModel { name: self@, uid: None }),
    {
        PublishId { name: self.clone(), uid: None }
    }
}

impl IntoPublishId for Device {
    /// The device's name and uid.
    fn into_id(self) -> (r: PublishId)
        ensures
            r@ == device_publish_id(self),
    {
        PublishId { name: self.name, uid: Some(self.uid) }
    }
}

impl ToPublishId for Device {
    /// The device's name and uid.
    fn to_id(&self) -> (r: PublishId)
        ensures
            r@ == device_publish_id(*self),
    {
        PublishId { name: self.name.clone(), uid: Some(self.uid.clone()) }
    }
}

/// The device an event comes from, and the device that sent it.
#[derive(Clone, Debug, PartialEq, Eq)]
pub struct PublishIdPair {
    /// The device which originally sent the event.
    pub device: PublishId,
    /// The device which transmitted the event.
    pub sender: PublishId,
}

impl PublishIdPair {
    /// The pair for a connected device that may send as another device: the other
    /// device (where there is one) is the device, the connected one the sender; else both
    /// are the connected device.
    pub fn with_devices(device: Device, as_device: Option<Device>) -> (r: PublishIdPair)
        ensures
            r.device@ == match as_device {
                Some(a) => device_publish_id(a),
                None => device_publish_id(device),
            },
            r.sender@ == device_publish_id(device),
    {
        let device_id = match &as_device {
            Some(a) => a.to_id(),
            None => device.to_id(),
        };
        PublishIdPair { device: device_id, sender: device.into_id() }
    }
}

/// What became of a published event.
#[derive(Clone, Copy, Debug, PartialEq, Eq)]
pub enum PublishOutcome {
    /// Message accepted.
    Accepted,
    /// Invalid message format.
    Rejected,
    /// Input queue full.
    QueueFull,
}

/// Why a publish failed.
#[derive(Debug)]
pub enum PublishError<E> {
    /// The sink failed.
    Sink(crate::sink::SinkError<E>),
    /// The application's publish rules do not parse; the text of the error.
    Spec(String),
    /// The event could not be built; why.
    Event(String),
    /// Processing the rules failed.
    Processor(crate::process::ProcessError),
}

/// The text of a publish error.
pub open spec fn publish_error_text<E>(e: PublishError<E>) -> Seq<char> {
    match e {
        PublishError::Sink(_) => "Sink error"@,
        PublishError::Spec(_) => "Publish spec error"@,
        PublishError::Event(_) => "Build event error"@,
        PublishError::Processor(_) => "Process error"@,
    }
}

impl<E> PublishError<E> {
    /// The text of the error.
    pub fn message(&self) -> (r: String)
        ensures
            r@ == publish_error_text(*self),
    {
        match self {
            PublishError::Sink(_) => "Sink error".to_owned(),
            PublishError::Spec(_) => "Publish spec error".to_owned(),
            PublishError::Event(_) => "Build event error".to_owned(),
            PublishError::Processor(_) => "Process error".to_owned(),
        }
    }
}

/// The direction of messages.
#[derive(Clone, Copy, Debug, PartialEq, Eq)]
pub enum Direction {
    /// Cloud to device messaging.
    Upstream,
    /// Device to cloud messaging.
    Downstream,
}

/// Options of a publish.
#[derive(Clone, Debug, PartialEq, Eq)]
pub struct PublishOptions {
    /// The time of the event (RFC 3339), where the device sets one.
    pub time: Option<String>,
    pub topic: Option<String>,
    pub data_schema: Option<String>,
    pub content_type: Option<String>,
    /// Extensions to add to the event, in order.
    pub extensions: Vec<(String, String)>,
}

/// A publish: the application, the device the message is from, the device that sent it,
/// the channel, and the options.
#[derive(Debug)]
pub struct Publish {
    pub application: Application,
    pub device: PublishId,
    pub sender: PublishId,
    pub channel: String,
    pub options: PublishOptions,
}

/// An ASCII letter or digit.
pub open spec fn is_ascii_alphanumeric(b: u8) -> bool {
    (48 <= b <= 57) || (65 <= b <= 90) || (97 <= b <= 122)
}

/// The upper case hexadecimal digit for `d` (`d < 16`).
pub open spec fn hex_digit(d: u8) -> char {
    if d < 10 {
        (48 + d) as char
    } else {
        (55 + d) as char
    }
}

/// A byte as percent-encoding writes it, where the set is everything but ASCII letters and
/// digits: a letter or digit as it is, any other byte as `%` and two upper case
/// hexadecimal digits.
pub open spec fn encoded_byte(b: u8) -> Seq<char> {
    if is_ascii_alphanumeric(b) {
        seq![b as char]
    } else {
        seq!['%', hex_digit(b / 16), hex_digit(b % 16)]
    }
}

/// Bytes percent-encoded, every byte but ASCII letters and digits encoded.
pub open spec fn percent_encoded(bytes: Seq<u8>) -> Seq<char>
    decreases bytes.len(),
{
    if bytes.len() == 0 {
        Seq::empty()
    } else {
        percent_encoded(bytes.drop_last()) + encoded_byte(bytes.last())
    }
}

/// Calls `percent_encoding::utf8_percent_encode(s, NON_ALPHANUMERIC)`: as its source shows,
/// each byte of the text's UTF-8 encoding that is no ASCII letter or digit is written as
/// `%` and two upper case hexadecimal digits, the others as they are.
#[verifier::external_body]
pub(crate) fn percent_encode(s: &str) -> (r: String)
    ensures
        r@ == percent_encoded(encode_utf8(s@)),
{
    percent_encoding::utf8_percent_encode(s, percent_encoding::NON_ALPHANUMERIC).to_string()
}

/// The source of a device's events: application and device name, percent-encoded, with
/// a slash between them.
pub open spec fn source_of(app: Seq<u8>, device: Seq<u8>) -> Seq<char> {
    percent_encoded(app) + seq!['/'] + percent_encoded(device)
}

/// The extensions that a publish sets, in the order in which they are set.
pub open spec fn publish_extension_list(publish: Publish, source: Seq<char>, instance: Seq<char>) -> Seq<
    (Seq<char>, Seq<char>),
> {
    seq![
        ("application"@, publish.application.name@),
        ("device"@, publish.device.name@),
        ("applicationuid"@, publish.application.uid@),
    ] + match publish.device.uid {
        Some(u) => seq![("deviceuid"@, u@)],
        None => Seq::empty(),
    } + match publish.sender.uid {
        Some(u) => seq![("senderuid"@, u@)],
        None => Seq::empty(),
    } + seq![
        ("partitionkey"@, source),
        ("instance"@, instance),
        ("sender"@, publish.sender.name@),
    ] + match publish.options.data_schema {
        Some(d) => seq![("dataschema"@, d@)],
        None => Seq::empty(),
    } + publish.options.extensions@.map_values(|e: (String, String)| (e.0@, e.1@))
}

/// Setting each of a list of string extensions in turn.
pub open spec fn with_extensions(exts: Seq<ExtensionModel>, pairs: Seq<(Seq<char>, Seq<char>)>) -> Seq<
    ExtensionModel,
>
    decreases pairs.len(),
{
    if pairs.len() == 0 {
        exts
    } else {
        with_extension(
            with_extensions(exts, pairs.drop_last()),
            pairs.last().0,
            ExtensionValueModel::String(pairs.last().1),
        )
    }
}

/// Setting a list of string extensions in turn: a name reads as the value of its last
/// occurrence in the list.
pub proof fn lemma_with_extensions_last(exts: Seq<ExtensionModel>, pairs: Seq<(Seq<char>, Seq<char>)>, k: int)
    requires
        0 <= k < pairs.len(),
        forall|j: int| k < j < pairs.len() ==> (#[trigger] pairs[j]).0 != pairs[k].0,
    ensures
        crate::event::extension_of(with_extensions(exts, pairs), pairs[k].0) == Some(
            ExtensionValueModel::String(pairs[k].1),
        ),
    decreases pairs.len(),
{
    let n = pairs[k].0;
    let prev = pairs.drop_last();
    let before = with_extensions(exts, prev);
    if k == pairs.len() - 1 {
        assert(n.push('x').len() != n.len());
        crate::event::lemma_extension_reads_back(before, n, ExtensionValueModel::String(pairs[k].1), n.push('x'));
    } else {
        assert forall|j: int| k < j < prev.len() implies (#[trigger] prev[j]).0 != prev[k].0 by {
            assert(prev[j] == pairs[j]);
        }
        lemma_with_extensions_last(exts, prev, k);
        assert(pairs.last().0 != n) by {
            assert(pairs[pairs.len() - 1] == pairs.last());
        }
        crate::event::lemma_extension_reads_back(
            before,
            pairs.last().0,
            ExtensionValueModel::String(pairs.last().1),
            n,
        );
    }
}

/// Setting a list of string extensions in turn: a name that the list does not hold reads
/// as it did before.
pub proof fn lemma_with_extensions_other(exts: Seq<ExtensionModel>, pairs: Seq<(Seq<char>, Seq<char>)>, name: Seq<char>)
    requires
        forall|j: int| 0 <= j < pairs.len() ==> (#[trigger] pairs[j]).0 != name,
    ensures
        crate::event::extension_of(with_extensions(exts, pairs), name) == crate::event::extension_of(exts, name),
    decreases pairs.len(),
{
    if pairs.len() > 0 {
        let prev = pairs.drop_last();
        assert forall|j: int| 0 <= j < prev.len() implies (#[trigger] prev[j]).0 != name by {
            assert(prev[j] == pairs[j]);
        }
        lemma_with_extensions_other(exts, prev, name);
        assert(pairs.last().0 != name) by {
            assert(pairs[pairs.len() - 1] == pairs.last());
        }
        crate::event::lemma_extension_reads_back(
            with_extensions(exts, prev),
            pairs.last().0,
            ExtensionValueModel::String(pairs.last().1),
            name,
        );
    }
}

/// No extension of the list has this name.
pub open spec fn none_named(exts: Seq<(String, String)>, name: Seq<char>) -> bool {
    forall|k: int| 0 <= k < exts.len() ==> (#[trigger] exts[k]).0@ != name
}

/// The data of a published event and its content type, where the body is accepted: for a
/// JSON content type the body must parse as JSON (`parsed`); without content type, JSON
/// where it parses, else bytes.
pub open spec fn publish_data(content_type: Option<Seq<char>>, body: Seq<u8>, parsed: Option<JsonValue>) -> Option<
    (Seq<char>, DataModel),
> {
    match content_type {
        Some(t) => if is_json_type(t) {
            match parsed {
                Some(v) => Some(("application/json"@, DataModel::Json(v))),
                None => None,
            }
        } else {
            Some((t, DataModel::Binary(body)))
        },
        None => match parsed {
            Some(v) => Some(("application/json"@, DataModel::Json(v))),
            None => Some(("application/octet-stream"@, DataModel::Binary(body))),
        },
    }
}

/// The event that a publish makes, `None` where the body is rejected: id and time as
/// given, the default event type, the device's source, the channel as subject, the
/// extensions of the publish, and the body as data.
pub open spec fn published_event(
    publish: Publish,
    instance: Seq<char>,
    id: Seq<char>,
    time: Seq<char>,
    body: Seq<u8>,
    parsed: Option<JsonValue>,
) -> Option<EventModel> {
    let source = source_of(
        encode_utf8(publish.application.name@),
        encode_utf8(publish.device.name@),
    );
    match publish_data(
        match publish.options.content_type {
            Some(t) => Some(t@),
            None => None,
        },
        body,
        parsed,
    ) {
        None => None,
        Some((content_type, data)) => Some(
            EventModel {
                id,
                ty: "io.drogue.event.v1"@,
                source: "drogue://"@ + source,
                subject: Some(publish.channel@),
                time: Some(time),
                datacontenttype: Some(content_type),
                dataschema: None,
                extensions: with_extensions(
                    Seq::empty(),
                    publish_extension_list(publish, source, instance),
                ),
                data: Some(data),
            },
        ),
    }
}

/// Where each part of the extension list of a publish stands: `application`, `device`,
/// `applicationuid`, the optional `deviceuid` and `senderuid`, then `partitionkey`,
/// `instance`, `sender`, the optional `dataschema`, and the publish's own extensions.
proof fn lemma_publish_list_shape(publish: Publish, source: Seq<char>, instance: Seq<char>)
    ensures
        ({
            let l = publish_extension_list(publish, source, instance);
            let o: int = 3 + (if publish.device.uid is Some { 1int } else { 0int }) + (if publish.sender.uid is Some {
                1int
            } else {
                0int
            });
            let b: int = o + 3 + (if publish.options.data_schema is Some { 1int } else { 0int });
            let users = publish.options.extensions@;
            &&& l.len() == b + users.len()
            &&& l[0] == ("application"@, publish.application.name@)
            &&& l[1] == ("device"@, publish.device.name@)
            &&& l[2] == ("applicationuid"@, publish.application.uid@)
            &&& publish.device.uid matches Some(u) ==> l[3] == ("deviceuid"@, u@)
            &&& publish.sender.uid matches Some(u) ==> l[o - 1] == ("senderuid"@, u@)
            &&& l[o] == ("partitionkey"@, source)
            &&& l[o + 1] == ("instance"@, instance)
            &&& l[o + 2] == ("sender"@, publish.sender.name@)
            &&& publish.options.data_schema matches Some(d) ==> l[o + 3] == ("dataschema"@, d@)
            &&& forall|k: int| 0 <= k < users.len() ==> l[b + k] == ((#[trigger] users[k]).0@, users[k].1@)
        }),
{
    let l = publish_extension_list(publish, source, instance);
    let users = publish.options.extensions@;
    let a = seq![
        ("application"@, publish.application.name@),
        ("device"@, publish.device.name@),
        ("applicationuid"@, publish.application.uid@),
    ];
    let du = match publish.device.uid {
        Some(u) => seq![("deviceuid"@, u@)],
        None => Seq::empty(),
    };
    let su = match publish.sender.uid {
        Some(u) => seq![("senderuid"@, u@)],
        None => Seq::empty(),
    };
    let mid = seq![("partitionkey"@, source), ("instance"@, instance), ("sender"@, publish.sender.name@)];
    let ds = match publish.options.data_schema {
        Some(d) => seq![("dataschema"@, d@)],
        None => Seq::<(Seq<char>, Seq<char>)>::empty(),
    };
    let c = users.map_values(|e: (String, String)| (e.0@, e.1@));
    let head = a + du + su + mid + ds;
    assert(l == head + c);
    assert forall|k: int| 0 <= k < users.len() implies l[head.len() + k] == (
        (#[trigger] users[k]).0@,
        users[k].1@,
    ) by {
        assert(c[k] == (users[k].0@, users[k].1@));
    }
}

/// An extension of the list before the publish's own extensions reads as its value where
/// no later entry has its name.
proof fn lemma_publish_fixed(publish: Publish, source: Seq<char>, instance: Seq<char>, k: int)
    requires
        0 <= k < publish_extension_list(publish, source, instance).len()
            - publish.options.extensions@.len(),
        none_named(publish.options.extensions@, publish_extension_list(publish, source, instance)[k].0),
        forall|j: int|
            k < j < publish_extension_list(publish, source, instance).len()
                - publish.options.extensions@.len() ==> (#[trigger] publish_extension_list(
                publish,
                source,
                instance,
            )[j]).0 != publish_extension_list(publish, source, instance)[k].0,
    ensures
        crate::event::extension_of(
            with_extensions(Seq::empty(), publish_extension_list(publish, source, instance)),
            publish_extension_list(publish, source, instance)[k].0,
        ) == Some(ExtensionValueModel::String(publish_extension_list(publish, source, instance)[k].1)),
{
    let l = publish_extension_list(publish, source, instance);
    let users = publish.options.extensions@;
    let b = l.len() - users.len();
    lemma_publish_list_shape(publish, source, instance);
    assert forall|j: int| k < j < l.len() implies (#[trigger] l[j]).0 != l[k].0 by {
        if j >= b {
            let u = j - b;
            assert(l[b + u] == (users[u].0@, users[u].1@));
        }
    }
    lemma_with_extensions_last(Seq::empty(), l, k);
}

/// The extensions of a published event: `application`, `device`, `applicationuid`,
/// `partitionkey` (the device's source), `instance`, `sender`, `deviceuid` and
/// `senderuid` where the ids have one, and `dataschema` (absent without one) read as the
/// publish's values, each unless one of the publish's own extensions has that name; each
/// of the publish's own extensions reads as the last value the publish gives it. The
/// event's subject is the channel and it has the given id and time.
pub proof fn law_published_event(
    publish: Publish,
    instance: Seq<char>,
    id: Seq<char>,
    time: Seq<char>,
    body: Seq<u8>,
    parsed: Option<JsonValue>,
    ev: EventModel,
)
    requires
        published_event(publish, instance, id, time, body, parsed) == Some(ev),
    ensures
        ev.id == id,
        ev.time == Some(time),
        ev.subject == Some(publish.channel@),
        none_named(publish.options.extensions@, "application"@) ==> crate::command::string_extension(
            ev.extensions,
            "application"@,
        ) == Some(publish.application.name@),
        none_named(publish.options.extensions@, "device"@) ==> crate::command::string_extension(
            ev.extensions,
            "device"@,
        ) == Some(publish.device.name@),
        none_named(publish.options.extensions@, "applicationuid"@) ==> crate::command::string_extension(
            ev.extensions,
            "applicationuid"@,
        ) == Some(publish.application.uid@),
        none_named(publish.options.extensions@, "partitionkey"@) ==> crate::command::string_extension(
            ev.extensions,
            "partitionkey"@,
        ) == Some(source_of(encode_utf8(publish.application.name@), encode_utf8(publish.device.name@))),
        none_named(publish.options.extensions@, "instance"@) ==> crate::command::string_extension(
            ev.extensions,
            "instance"@,
        ) == Some(instance),
        none_named(publish.options.extensions@, "sender"@) ==> crate::command::string_extension(
            ev.extensions,
            "sender"@,
        ) == Some(publish.sender.name@),
        none_named(publish.options.extensions@, "deviceuid"@) && publish.device.uid is Some
            ==> crate::command::string_extension(ev.extensions, "deviceuid"@) == Some(
            publish.device.uid->0@,
        ),
        none_named(publish.options.extensions@, "senderuid"@) && publish.sender.uid is Some
            ==> crate::command::string_extension(ev.extensions, "senderuid"@) == Some(
            publish.sender.uid->0@,
        ),
        none_named(publish.options.extensions@, "dataschema"@) ==> crate::command::string_extension(
            ev.extensions,
            "dataschema"@,
        ) == match publish.options.data_schema {
            Some(d) => Some(d@),
            None => None,
        },
        forall|k: int|
            0 <= k < publish.options.extensions@.len() && (forall|j: int|
                k < j < publish.options.extensions@.len() ==> (#[trigger] publish.options.extensions@[j]).0@
                    != publish.options.extensions@[k].0@) ==> crate::command::string_extension(
                ev.extensions,
                (#[trigger] publish.options.extensions@[k]).0@,
            ) == Some(publish.options.extensions@[k].1@),
{
    let source = source_of(encode_utf8(publish.application.name@), encode_utf8(publish.device.name@));
    let l = publish_extension_list(publish, source, instance);
    let users = publish.options.extensions@;
    let o: int = 3 + (if publish.device.uid is Some { 1int } else { 0int }) + (if publish.sender.uid is Some {
        1int
    } else {
        0int
    });
    let b: int = l.len() - users.len();
    lemma_publish_list_shape(publish, source, instance);
    reveal_strlit("application");
    reveal_strlit("device");
    reveal_strlit("applicationuid");
    reveal_strlit("deviceuid");
    reveal_strlit("senderuid");
    reveal_strlit("partitionkey");
    reveal_strlit("instance");
    reveal_strlit("sender");
    reveal_strlit("dataschema");
    assert("application"@.len() == 11 && "device"@.len() == 6 && "applicationuid"@.len() == 14);
    assert("deviceuid"@.len() == 9 && "senderuid"@.len() == 9 && "partitionkey"@.len() == 12);
    assert("instance"@.len() == 8 && "sender"@.len() == 6 && "dataschema"@.len() == 10);
    assert("device"@ != "sender"@) by {
        assert("device"@[0] != "sender"@[0]);
    }
    assert("deviceuid"@ != "senderuid"@) by {
        assert("deviceuid"@[0] != "senderuid"@[0]);
    }
    if none_named(users, "application"@) {
        lemma_publish_fixed(publish, source, instance, 0);
    }
    if none_named(users, "device"@) {
        lemma_publish_fixed(publish, source, instance, 1);
    }
    if none_named(users, "applicationuid"@) {
        lemma_publish_fixed(publish, source, instance, 2);
    }
    if none_named(users, "deviceuid"@) && publish.device.uid is Some {
        lemma_publish_fixed(publish, source, instance, 3);
    }
    if none_named(users, "senderuid"@) && publish.sender.uid is Some {
        lemma_publish_fixed(publish, source, instance, o - 1);
    }
    if none_named(users, "partitionkey"@) {
        lemma_publish_fixed(publish, source, instance, o);
    }
    if none_named(users, "instance"@) {
        lemma_publish_fixed(publish, source, instance, o + 1);
    }
    if none_named(users, "sender"@) {
        lemma_publish_fixed(publish, source, instance, o + 2);
    }
    if none_named(users, "dataschema"@) {
        match publish.options.data_schema {
            Some(d) => lemma_publish_fixed(publish, source, instance, o + 3),
            None => {
                assert forall|j: int| 0 <= j < l.len() implies (#[trigger] l[j]).0 != "dataschema"@ by {
                    if j >= b {
                        let u = j - b;
                        assert(l[b + u] == (users[u].0@, users[u].1@));
                    }
                }
                lemma_with_extensions_other(Seq::empty(), l, "dataschema"@);
                assert(crate::event::extension_names(Seq::<ExtensionModel>::empty()) =~= Seq::empty());
            },
        }
    }
    assert forall|k: int|
        0 <= k < users.len() && (forall|j: int|
            k < j < users.len() ==> (#[trigger] users[j]).0@ != users[k].0@) implies crate::command::string_extension(
        ev.extensions,
        (#[trigger] users[k]).0@,
    ) == Some(users[k].1@) by {
        assert(l[b + k] == (users[k].0@, users[k].1@));
        assert forall|j: int| b + k < j < l.len() implies (#[trigger] l[j]).0 != l[b + k].0 by {
            let u = j - b;
            assert(l[b + u] == (users[u].0@, users[u].1@));
        }
        lemma_with_extensions_last(Seq::empty(), l, b + k);
    }
}

/// Which bodies a publish accepts, and as what: a body with a JSON content type is
/// rejected exactly where it does not parse, and is then JSON data of type
/// `application/json`; with another content type the body is kept as bytes of that type;
/// without one it is JSON data where it parses, else bytes of type
/// `application/octet-stream`.
pub proof fn law_publish_data(content_type: Option<Seq<char>>, body: Seq<u8>, parsed: Option<JsonValue>)
    ensures
        publish_data(content_type, body, parsed) is None <==> (content_type is Some && is_json_type(
            content_type->0,
        ) && parsed is None),
        content_type is Some && !is_json_type(content_type->0) ==> publish_data(content_type, body, parsed)
            == Some((content_type->0, DataModel::Binary(body))),
        (content_type is None || is_json_type(content_type->0)) && parsed is Some ==> publish_data(
            content_type,
            body,
            parsed,
        ) == Some(("application/json"@, DataModel::Json(parsed->0))),
        content_type is None && parsed is None ==> publish_data(content_type, body, parsed) == Some(
            ("application/octet-stream"@, DataModel::Binary(body)),
        ),
{
}

/// Sets a string extension.
pub(crate) fn set_string_extension(event: &mut Event, name: &str, value: &str)
    ensures
        final(event)@ == (EventModel {
            extensions: with_extension(
                old(event)@.extensions,
                name@,
                ExtensionValueModel::String(value@),
            ),
            ..old(event)@
        }),
{
    event.set_extension(name, ExtensionValue::String(value.to_owned()));
}

/// Builds the event of a publish, `None` where its body is rejected. `id` is the event's
/// (random) id, `time` its time, `parsed` the JSON that the body parses to, if any.
pub fn publish_event(
    publish: &Publish,
    instance: &str,
    id: String,
    time: String,
    body: Vec<u8>,
    parsed: Option<JsonValue>,
) -> (r: Option<Event>)
    ensures
        match r {
            Some(e) => published_event(*publish, instance@, id@, time@, body@, parsed) == Some(e@),
            None => published_event(*publish, instance@, id@, time@, body@, parsed) is None,
        },
{
    let (content_type, data) = match &publish.options.content_type {
        Some(t) => if is_json(t.as_str()) {
            match parsed {
                Some(v) => ("application/json".to_owned(), Data::Json(v)),
                None => {
                    return None;
                },
            }
        } else {
            (t.clone(), Data::Binary(body))
        },
        None => match parsed {
            Some(v) => ("application/json".to_owned(), Data::Json(v)),
            None => ("application/octet-stream".to_owned(), Data::Binary(body)),
        },
    };
    let app_enc = percent_encode(publish.application.name.as_str());
    let device_enc = percent_encode(publish.device.name.as_str());
    let source = join2(app_enc.as_str(), '/', device_enc.as_str());
    let mut event = Event {
        id,
        ty: "io.drogue.event.v1".to_owned(),
        source: concat("drogue://", source.as_str()),
        subject: Some(publish.channel.clone()),
        time: Some(time),
        datacontenttype: Some(content_type),
        dataschema: None,
        extensions: Vec::new(),
        data: Some(data),
    };
    let ghost list = publish_extension_list(*publish, source@, instance@);
    let ghost base = event@;
    proof {
        assert(base.extensions =~= Seq::<ExtensionModel>::empty());
    }
    let mut pairs: Vec<(&str, &str)> = Vec::new();
    pairs.push(("application", publish.application.name.as_str()));
    pairs.push(("device", publish.device.name.as_str()));
    pairs.push(("applicationuid", publish.application.uid.as_str()));
    let ghost part1 = seq![
        ("application"@, publish.application.name@),
        ("device"@, publish.device.name@),
        ("applicationuid"@, publish.application.uid@),
    ];
    assert(pairs@.map_values(|p: (&str, &str)| (p.0@, p.1@)) =~= part1);
    match &publish.device.uid {
        Some(u) => pairs.push(("deviceuid", u.as_str())),
        None => {},
    }
    let ghost part2 = part1 + match &publish.device.uid {
        Some(u) => seq![("deviceuid"@, u@)],
        None => Seq::empty(),
    };
    assert(pairs@.map_values(|p: (&str, &str)| (p.0@, p.1@)) =~= part2);
    match &publish.sender.uid {
        Some(u) => pairs.push(("senderuid", u.as_str())),
        None => {},
    }
    let ghost part3 = part2 + match &publish.sender.uid {
        Some(u) => seq![("senderuid"@, u@)],
        None => Seq::empty(),
    };
    assert(pairs@.map_values(|p: (&str, &str)| (p.0@, p.1@)) =~= part3);
    pairs.push(("partitionkey", source.as_str()));
    pairs.push(("instance", instance));
    pairs.push(("sender", publish.sender.name.as_str()));
    let ghost part4 = part3 + seq![
        ("partitionkey"@, source@),
        ("instance"@, instance@),
        ("sender"@, publish.sender.name@),
    ];
    assert(pairs@.map_values(|p: (&str, &str)| (p.0@, p.1@)) =~= part4);
    match &publish.options.data_schema {
        Some(d) => pairs.push(("dataschema", d.as_str())),
        None => {},
    }
    let ghost part5 = part4 + match &publish.options.data_schema {
        Some(d) => seq![("dataschema"@, d@)],
        None => Seq::empty(),
    };
    assert(pairs@.map_values(|p: (&str, &str)| (p.0@, p.1@)) =~= part5);
    let ghost fixed = pairs@;
    let mut j: usize = 0;
    while j < publish.options.extensions.len()
        invariant
            j <= publish.options.extensions@.len(),
            pairs@.len() == fixed.len() + j,
            pairs@.take(fixed.len() as int) == fixed,
            forall|k: int|
                0 <= k < j ==> (#[trigger] pairs@[fixed.len() + k]).0@
                    == publish.options.extensions@[k].0@ && pairs@[fixed.len() + k].1@
                    == publish.options.extensions@[k].1@,
        decreases publish.options.extensions@.len() - j,
    {
        let (k, v) = &publish.options.extensions[j];
        let ghost before = pairs@;
        pairs.push((k.as_str(), v.as_str()));
        assert(pairs@.take(fixed.len() as int) =~= before.take(fixed.len() as int));
        j += 1;
    }
    proof {
        let m = pairs@.map_values(|p: (&str, &str)| (p.0@, p.1@));
        let exts = publish.options.extensions@.map_values(|e: (String, String)| (e.0@, e.1@));
        assert(m.take(fixed.len() as int) =~= fixed.map_values(|p: (&str, &str)| (p.0@, p.1@)));
        assert forall|k: int| 0 <= k < exts.len() implies m[fixed.len() + k] == exts[k] by {
            assert(pairs@[fixed.len() + k].0@ == publish.options.extensions@[k].0@);
        }
        assert(m =~= m.take(fixed.len() as int) + exts);
        assert(list =~= part5 + exts);
    }
    assert(pairs@.map_values(|p: (&str, &str)| (p.0@, p.1@)) =~= list);
    let mut i: usize = 0;
    assert(list.take(0) =~= Seq::<(Seq<char>, Seq<char>)>::empty());
    while i < pairs.len()
        invariant
            list == pairs@.map_values(|p: (&str, &str)| (p.0@, p.1@)),
            i <= pairs@.len(),
            event@ == (EventModel {
                extensions: with_extensions(Seq::empty(), list.take(i as int)),
                ..base
            }),
        decreases pairs@.len() - i,
    {
        let (k, v) = pairs[i];
        assert(list.take(i + 1).drop_last() =~= list.take(i as int));
        set_string_extension(&mut event, k, v);
        i += 1;
    }
    assert(list.take(i as int) =~= list);
    Some(event)
}


/// Builds the event of a publish with a fresh random id and the current time; a body that
/// is rejected makes the publish `Rejected` before any event. `parsed` is the JSON that
/// the body parses to, if any. Whatever id and time came back, the event is the one that
/// the publish makes with them.
pub fn new_publish_event(publish: &Publish, instance: &str, body: Vec<u8>, parsed: Option<JsonValue>) -> (r:
    Result<Event, PublishOutcome>)
    ensures
        r is Ok <==> publish_data(
            match publish.options.content_type {
                Some(t) => Some(t@),
                None => None,
            },
            body@,
            parsed,
        ) is Some,
        r matches Err(o) ==> o == PublishOutcome::Rejected,
        r matches Ok(e) ==> (e@.id.len() == 36 && e@.time is Some && published_event(
            *publish,
            instance@,
            e@.id,
            e@.time->0,
            body@,
            parsed,
        ) == Some(e@)),
{
    let id = crate::event::new_uuid_text();
    let time = crate::event::now_rfc3339();
    match publish_event(publish, instance, id, time, body, parsed) {
        Some(event) => Ok(event),
        None => Err(PublishOutcome::Rejected),
    }
}


/// What a publish does once the rules have processed its event.
#[derive(Debug)]
pub enum PublishStep {
    /// Send the event, in this form; the sink's outcome is the publish's.
    Send(Event),
    /// The publish is done with this outcome.
    Done(PublishOutcome),
}

/// After the rules: an accepted event is sent, a rejected one is reported as rejected, a
/// dropped one as accepted (without sending it).
pub fn after_rules(outcome: Outcome) -> (r: PublishStep)
    ensures
        match outcome {
            Outcome::Accepted(e) => r matches PublishStep::Send(s) && s@ == e@,
            Outcome::Rejected(_) => r == PublishStep::Done(PublishOutcome::Rejected),
            Outcome::Dropped => r == PublishStep::Done(PublishOutcome::Accepted),
        },
{
    match outcome {
        Outcome::Accepted(e) => PublishStep::Send(e),
        Outcome::Rejected(_) => PublishStep::Done(PublishOutcome::Rejected),
        Outcome::Dropped => PublishStep::Done(PublishOutcome::Accepted),
    }
}

/// The HTTP status that answers a publish: `202 Accepted`, `406 Not Acceptable` for a
/// rejected event, `503 Service Unavailable` for a full queue, `500 Internal Server
/// Error` for a failure.
pub open spec fn publish_status(result: Result<PublishOutcome, String>) -> u16 {
    match result {
        Ok(PublishOutcome::Accepted) => 202,
        Ok(PublishOutcome::Rejected) => 406,
        Ok(PublishOutcome::QueueFull) => 503,
        Err(_) => 500,
    }
}

/// The name under which the outcome of a publish over HTTP is counted: the outcome's
/// name, or `Error` for a failure.
pub open spec fn outcome_label(result: Result<PublishOutcome, String>) -> Seq<char> {
    match result {
        Ok(PublishOutcome::Accepted) => "Accepted"@,
        Ok(PublishOutcome::Rejected) => "Rejected"@,
        Ok(PublishOutcome::QueueFull) => "QueueFull"@,
        Err(_) => "Error"@,
    }
}

/// The HTTP response to a publish.
#[derive(Debug, PartialEq, Eq)]
pub struct HttpPublishResponse {
    /// The HTTP status.
    pub status: u16,
    /// The body and its content type, where there is one.
    pub body: Option<(String, String)>,
    /// The name under which the outcome is counted.
    pub label: String,
}

/// The HTTP response to a publish: its status; where it failed, the text of the error as
/// body of content type `text/plain`, else no body; and the name it is counted under.
pub fn publish_http_response(result: Result<PublishOutcome, String>) -> (r: HttpPublishResponse)
    ensures
        r.status == publish_status(result),
        r.label@ == outcome_label(result),
        match result {
            Err(e) => r.body matches Some((t, b)) && t@ == "text/plain"@ && b@ == e@,
            Ok(_) => r.body is None,
        },
{
    match result {
        Ok(PublishOutcome::Accepted) => HttpPublishResponse {
            status: 202,
            body: None,
            label: "Accepted".to_owned(),
        },
        Ok(PublishOutcome::Rejected) => HttpPublishResponse {
            status: 406,
            body: None,
            label: "Rejected".to_owned(),
        },
        Ok(PublishOutcome::QueueFull) => HttpPublishResponse {
            status: 503,
            body: None,
            label: "QueueFull".to_owned(),
        },
        Err(e) => HttpPublishResponse {
            status: 500,
            body: Some(("text/plain".to_owned(), e)),
            label: "Error".to_owned(),
        },
    }
}

} // verus!
