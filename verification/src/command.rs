//! Commands sent to devices, their subscription filters, and the registry that decides
//! which subscriber receives which command.
use crate::event::{extension_of, DataModel, Data, Event, EventModel, ExtensionModel, ExtensionValue, ExtensionValueModel};
use crate::id::{Id, IdModel};
use vstd::prelude::*;
use vstd::utf8::encode_utf8;

verus! {

/// The address of a command: an application, the gateway it is sent through, and the
/// device it is meant for.
#[derive(Clone, Debug, PartialEq, Eq, Hash)]
pub struct CommandAddress {
    pub app_id: String,
    pub gateway_id: String,
    pub device_id: String,
}

/// The mathematical value of a [`CommandAddress`].
pub struct CommandAddressModel {
    pub app_id: Seq<char>,
    pub gateway_id: Seq<char>,
    pub device_id: Seq<char>,
}

impl View for CommandAddress {
    type V = CommandAddressModel;

    open spec fn view(&self) -> CommandAddressModel {
        CommandAddressModel {
            app_id: self.app_id@,
            gateway_id: self.gateway_id@,
            device_id: self.device_id@,
        }
    }
}

impl CommandAddress {
    /// Create a new command address.
    pub fn new(app_id: String, gateway_id: String, device_id: String) -> (r: CommandAddress)
        ensures
            r.app_id@ == app_id@,
            r.gateway_id@ == gateway_id@,
            r.device_id@ == device_id@,
    {
        CommandAddress { app_id, device_id, gateway_id }
    }

    /// The two addresses are the same.
    pub fn same(&self, other: &CommandAddress) -> (r: bool)
        ensures
            r == (self@ == other@),
    {
        self.app_id == other.app_id && self.gateway_id == other.gateway_id && self.device_id
            == other.device_id
    }
}

/// A command.
#[derive(Clone, Debug, PartialEq, Eq)]
pub struct Command {
    pub address: CommandAddress,
    pub command: String,
    pub payload: Option<Vec<u8>>,
}

impl Command {
    /// Create a new scoped command.
    pub fn new(address: CommandAddress, command: String, payload: Option<Vec<u8>>) -> (r: Command)
        ensures
            r.address == address,
            r.command@ == command@,
            r.payload == payload,
    {
        Command { address, command, payload }
    }
}

/// Why an event could not be read as a command.
#[derive(Clone, Debug, PartialEq, Eq)]
pub enum ParseCommandError {
    /// An attribute is missing: the address or the command (the subject).
    Missing(String),
    /// The data cannot be read as bytes.
    Payload,
}

/// The mathematical value of a [`ParseCommandError`].
pub enum ParseCommandErrorModel {
    Missing(Seq<char>),
    Payload,
}

impl View for ParseCommandError {
    type V = ParseCommandErrorModel;

    open spec fn view(&self) -> ParseCommandErrorModel {
        match self {
            ParseCommandError::Missing(m) => ParseCommandErrorModel::Missing(m@),
            ParseCommandError::Payload => ParseCommandErrorModel::Payload,
        }
    }
}

/// The text of the first extension with this name, where it is a string.
pub open spec fn string_extension(exts: Seq<ExtensionModel>, name: Seq<char>) -> Option<Seq<char>> {
    match extension_of(exts, name) {
        Some(ExtensionValueModel::String(s)) => Some(s),
        _ => None,
    }
}

/// Reads a string extension.
pub fn get_string_extension<'a>(event: &'a Event, name: &str) -> (r: Option<&'a String>)
    ensures
        match r {
            Some(s) => string_extension(event@.extensions, name@) == Some(s@),
            None => string_extension(event@.extensions, name@) is None,
        },
{
    match event.extension(name) {
        Some(ExtensionValue::String(s)) => Some(s),
        _ => None,
    }
}

/// The address of a command event: its application and device extensions (strings both),
/// and the sender extension as gateway, the device where it has none.
pub open spec fn address_of_event(ev: EventModel) -> Option<CommandAddressModel> {
    match (string_extension(ev.extensions, "application"@), string_extension(ev.extensions, "device"@)) {
        (Some(app), Some(device)) => Some(
            CommandAddressModel {
                app_id: app,
                gateway_id: match string_extension(ev.extensions, "sender"@) {
                    Some(s) => s,
                    None => device,
                },
                device_id: device,
            },
        ),
        _ => None,
    }
}

impl CommandAddress {
    /// The address of a command event.
    pub fn from_event(event: &Event) -> (r: Option<CommandAddress>)
        ensures
            match r {
                Some(a) => address_of_event(event@) == Some(a@),
                None => address_of_event(event@) is None,
            },
    {
        let app = get_string_extension(event, "application");
        let device = get_string_extension(event, "device");
        let sender = get_string_extension(event, "sender");
        match (app, device) {
            (Some(app), Some(device)) => {
                let gateway = match sender {
                    Some(s) => s.clone(),
                    None => device.clone(),
                };
                Some(CommandAddress::new(app.clone(), gateway, device.clone()))
            },
            _ => None,
        }
    }
}

/// The bytes of an event's data: bytes as they are, text in UTF-8, JSON as written
/// (`json_bytes`); `None` where JSON data was not written.
pub open spec fn data_bytes(data: DataModel, json_bytes: Option<Seq<u8>>) -> Option<Seq<u8>> {
    match data {
        DataModel::Binary(b) => Some(b),
        DataModel::String(s) => Some(encode_utf8(s)),
        DataModel::Json(_) => json_bytes,
    }
}

/// A command read from an event: its address, its subject as the command, and its data
/// as payload.
pub open spec fn command_of_event(ev: EventModel, json_bytes: Option<Seq<u8>>) -> Result<
    (CommandAddressModel, Seq<char>, Option<Seq<u8>>),
    ParseCommandErrorModel,
> {
    match address_of_event(ev) {
        None => Err(ParseCommandErrorModel::Missing("Address"@)),
        Some(address) => {
            let payload = match ev.data {
                None => Some(None),
                Some(d) => match data_bytes(d, json_bytes) {
                    Some(b) => Some(Some(b)),
                    None => None,
                },
            };
            match payload {
                None => Err(ParseCommandErrorModel::Payload),
                Some(p) => match ev.subject {
                    None => Err(ParseCommandErrorModel::Missing("Command"@)),
                    Some(command) => Ok((address, command, p)),
                },
            }
        },
    }
}

impl Command {
    /// Reads a command from an event; `json_bytes` is JSON data written as bytes.
    pub fn try_from_event(event: Event, json_bytes: Option<Vec<u8>>) -> (r: Result<Command, ParseCommandError>)
        ensures
            match r {
                Ok(c) => command_of_event(
                    event@,
                    match json_bytes {
                        Some(b) => Some(b@),
                        None => None,
                    },
                ) == Ok::<(CommandAddressModel, Seq<char>, Option<Seq<u8>>), ParseCommandErrorModel>(
                    (
                        c.address@,
                        c.command@,
                        match c.payload {
                            Some(p) => Some(p@),
                            None => None,
                        },
                    ),
                ),
                Err(e) => command_of_event(
                    event@,
                    match json_bytes {
                        Some(b) => Some(b@),
                        None => None,
                    },
                ) == Err::<(CommandAddressModel, Seq<char>, Option<Seq<u8>>), ParseCommandErrorModel>(
                    e@,
                ),
            },
    {
        let address = match CommandAddress::from_event(&event) {
            Some(a) => a,
            None => {
                return Err(ParseCommandError::Missing("Address".to_owned()));
            },
        };
        let mut event = event;
        let payload = match event.data.take() {
            None => None,
            Some(Data::Binary(b)) => Some(b),
            Some(Data::String(s)) => Some(vstd::slice::slice_to_vec(s.as_str().as_bytes())),
            Some(Data::Json(_)) => match json_bytes {
                Some(b) => Some(b),
                None => {
                    return Err(ParseCommandError::Payload);
                },
            },
        };
        match event.subject {
            None => Err(ParseCommandError::Missing("Command".to_owned())),
            Some(command) => Ok(Command::new(address, command, payload)),
        }
    }
}

/// The command that a request to the command service carries: the event's address and
/// subject, with the request's body (UTF-8 text) as JSON data.
pub fn command_of_request(event: Event, body: String) -> (r: Result<Command, ParseCommandError>)
    ensures
        match r {
            Ok(c) => command_of_event(
                EventModel {
                    datacontenttype: Some("application/json"@),
                    data: Some(DataModel::String(body@)),
                    ..event@
                },
                None,
            ) == Ok::<(CommandAddressModel, Seq<char>, Option<Seq<u8>>), ParseCommandErrorModel>(
                (
                    c.address@,
                    c.command@,
                    match c.payload {
                        Some(p) => Some(p@),
                        None => None,
                    },
                ),
            ),
            Err(e) => command_of_event(
                EventModel {
                    datacontenttype: Some("application/json"@),
                    data: Some(DataModel::String(body@)),
                    ..event@
                },
                None,
            ) == Err::<(CommandAddressModel, Seq<char>, Option<Seq<u8>>), ParseCommandErrorModel>(
                e@,
            ),
        },
{
    let mut event = event;
    event.datacontenttype = Some("application/json".to_owned());
    event.data = Some(Data::String(body));
    Command::try_from_event(event, None)
}

/// A filter for commands.
#[derive(Clone, Debug, PartialEq, Eq, Hash)]
pub struct CommandFilter {
    pub application: String,
    pub gateway: String,
    pub device: Option<String>,
    pub command_filter: Option<String>,
}

/// The view of an optional string.
pub open spec fn opt_seq(o: Option<String>) -> Option<Seq<char>> {
    match o {
        Some(s) => Some(s@),
        None => None,
    }
}

/// The mathematical value of a [`CommandFilter`].
pub struct CommandFilterModel {
    pub application: Seq<char>,
    pub gateway: Seq<char>,
    pub device: Option<Seq<char>>,
    pub command_filter: Option<Seq<char>>,
}

impl View for CommandFilter {
    type V = CommandFilterModel;

    open spec fn view(&self) -> CommandFilterModel {
        CommandFilterModel {
            application: self.application@,
            gateway: self.gateway@,
            device: opt_seq(self.device),
            command_filter: opt_seq(self.command_filter),
        }
    }
}

impl CommandFilter {
    /// A filter for commands for all devices attached to the gateway.
    pub fn wildcard(application: String, gateway: String) -> (r: CommandFilter)
        ensures
            r@ == (CommandFilterModel {
                application: application@,
                gateway: gateway@,
                device: None,
                command_filter: None,
            }),
    {
        CommandFilter { application, gateway, device: None, command_filter: None }
    }

    /// A filter for commands for a specific device attached to a gateway.
    pub fn proxied_device(application: String, gateway: String, device: String) -> (r:
        CommandFilter)
        ensures
            r@ == (CommandFilterModel {
                application: application@,
                gateway: gateway@,
                device: Some(device@),
                command_filter: None,
            }),
    {
        CommandFilter { application, gateway, device: Some(device), command_filter: None }
    }

    /// A filter for a specific device: the device is its own gateway.
    pub fn device(application: String, device: String) -> (r: CommandFilter)
        ensures
            r@ == (CommandFilterModel {
                application: application@,
                gateway: device@,
                device: Some(device@),
                command_filter: None,
            }),
    {
        let gateway = device.clone();
        CommandFilter { application, gateway, device: Some(device), command_filter: None }
    }

    /// Override the current command filter: an MQTT topic filter applied to the command
    /// name.
    pub fn with_filter(self, command_filter: Option<String>) -> (r: CommandFilter)
        ensures
            r@ == (CommandFilterModel { command_filter: opt_seq(command_filter), ..self@ }),
    {
        CommandFilter { command_filter, ..self }
    }
}

/// The levels of a topic: the text split at every `/`. The empty text is one empty
/// level, and a text ending in `/` ends in an empty level.
pub open spec fn topic_levels(s: Seq<char>) -> Seq<Seq<char>>
    decreases s.len(),
{
    if s.len() == 0 {
        seq![Seq::empty()]
    } else {
        let prev = topic_levels(s.drop_last());
        if s.last() == '/' {
            prev.push(Seq::empty())
        } else {
            prev.update(prev.len() - 1, prev.last().push(s.last()))
        }
    }
}

/// Whether a filter level may stand at position `i` of `n` levels: the single-level
/// wildcard `+`, a level without wildcards, or the multi-level wildcard `#` as the last
/// level.
pub open spec fn filter_level_valid(level: Seq<char>, i: int, n: int) -> bool {
    ||| level == seq!['+']
    ||| (!level.contains('+') && !level.contains('#'))
    ||| (i == n - 1 && level == seq!['#'])
}

/// Whether `filter` is a valid MQTT topic filter: not empty, at most 65535 bytes long,
/// `+` only as a whole level and `#` only as the whole last level.
pub open spec fn mqtt_filter_valid(filter: Seq<char>) -> bool {
    let levels = topic_levels(filter);
    &&& filter.len() > 0
    &&& vstd::utf8::encode_utf8(filter).len() <= 65535
    &&& forall|i: int| 0 <= i < levels.len() ==> #[trigger] filter_level_valid(levels[i], i, levels.len() as int)
}

/// Level-wise matching of filter levels `f` against name levels `n`: `+` matches exactly
/// one level, `#` matches the rest (the parent level included, so also no level at all),
/// any other level matches only itself.
pub open spec fn levels_match(f: Seq<Seq<char>>, n: Seq<Seq<char>>) -> bool
    decreases f.len(),
{
    if f.len() == 0 {
        n.len() == 0
    } else if f[0] == seq!['#'] {
        true
    } else if n.len() == 0 {
        false
    } else {
        (f[0] == seq!['+'] || f[0] == n[0]) && levels_match(f.drop_first(), n.drop_first())
    }
}

/// Whether the MQTT topic filter `filter` matches the topic name `name`, level by level;
/// a name whose first level starts with `$` is not matched by a wildcard in the first
/// level, only by that same first level.
pub open spec fn mqtt_filter_matches(filter: Seq<char>, name: Seq<char>) -> bool {
    let f = topic_levels(filter);
    let n = topic_levels(name);
    if n[0].len() > 0 && n[0][0] == '$' {
        f[0] == n[0] && levels_match(f.drop_first(), n.drop_first())
    } else {
        levels_match(f, n)
    }
}

/// Whether `mqtt::TopicNameRef::new` accepts `name` as a topic name: the name is not
/// empty, holds neither `+` nor `#`, and is at most 65535 bytes long.
pub open spec fn mqtt_name_valid(name: Seq<char>) -> bool {
    &&& name.len() > 0
    &&& !name.contains('+')
    &&& !name.contains('#')
    &&& vstd::utf8::encode_utf8(name).len() <= 65535
}

/// Calls `mqtt::TopicFilterRef::new(filter)` (the check of `TopicFilter::new`) and reports
/// whether it accepts the filter; its source accepts a non-empty filter of at most 65535
/// bytes matching `^(([^+#]*|\+)(/([^+#]*|\+))*(/#)?|#)$`.
#[verifier::external_body]
fn topic_filter_valid(filter: &str) -> (r: bool)
    ensures
        r == mqtt_filter_valid(filter@),
{
    mqtt::TopicFilterRef::new(filter).is_ok()
}

/// Calls `mqtt::TopicNameRef::new(name)` and reports whether it accepts the name; its
/// source accepts a non-empty name of at most 65535 bytes matching `^[^#+]+$`.
#[verifier::external_body]
fn topic_name_valid(name: &str) -> (r: bool)
    ensures
        r == mqtt_name_valid(name@),
{
    mqtt::TopicNameRef::new(name).is_ok()
}

/// Calls the matcher of `mqtt::TopicFilterRef` (`get_matcher().is_match(..)`) on a valid
/// filter and a valid topic name; its source splits both at `/` and compares them level by
/// level as `mqtt_filter_matches` states.
#[verifier::external_body]
fn topic_filter_matches(filter: &str, name: &str) -> (r: bool)
    requires
        mqtt_filter_valid(filter@),
        mqtt_name_valid(name@),
    ensures
        r == mqtt_filter_matches(filter@, name@),
{
    match (mqtt::TopicFilterRef::new(filter), mqtt::TopicNameRef::new(name)) {
        (Ok(f), Ok(n)) => f.get_matcher().is_match(n),
        _ => false,
    }
}

/// A filter on command names.
#[derive(Clone, Debug, PartialEq, Eq)]
pub enum CommandNameFilter {
    /// always pass
    Always,
    /// never pass
    Never,
    /// an MQTT topic filter
    Filter(String),
}

/// The mathematical value of a [`CommandNameFilter`].
pub enum CommandNameFilterModel {
    Always,
    Never,
    Filter(Seq<char>),
}

impl View for CommandNameFilter {
    type V = CommandNameFilterModel;

    open spec fn view(&self) -> CommandNameFilterModel {
        match self {
            CommandNameFilter::Always => CommandNameFilterModel::Always,
            CommandNameFilter::Never => CommandNameFilterModel::Never,
            CommandNameFilter::Filter(f) => CommandNameFilterModel::Filter(f@),
        }
    }
}

/// The name filter made from an optional filter text: none passes everything, an invalid
/// one passes nothing.
pub open spec fn name_filter_of(filter: Option<Seq<char>>) -> CommandNameFilterModel {
    match filter {
        Some(f) => if mqtt_filter_valid(f) {
            CommandNameFilterModel::Filter(f)
        } else {
            CommandNameFilterModel::Never
        },
        None => CommandNameFilterModel::Always,
    }
}

/// Whether a name filter passes a command name.
pub open spec fn name_filter_passes(filter: CommandNameFilterModel, command: Seq<char>) -> bool {
    match filter {
        CommandNameFilterModel::Filter(f) => mqtt_name_valid(command) && mqtt_filter_matches(
            f,
            command,
        ),
        CommandNameFilterModel::Never => false,
        CommandNameFilterModel::Always => true,
    }
}

impl CommandNameFilter {
    /// The filter is well formed: a topic filter is a valid one.
    pub open spec fn wf(&self) -> bool {
        match self {
            CommandNameFilter::Filter(f) => mqtt_filter_valid(f@),
            _ => true,
        }
    }

    /// Create a command name filter from an optional MQTT topic filter.
    pub fn from(filter: &Option<String>) -> (r: CommandNameFilter)
        ensures
            r@ == name_filter_of(opt_seq(*filter)),
            r.wf(),
    {
        match filter {
            Some(filter) => {
                if topic_filter_valid(filter.as_str()) {
                    CommandNameFilter::Filter(filter.clone())
                } else {
                    CommandNameFilter::Never
                }
            },
            None => CommandNameFilter::Always,
        }
    }

    /// Match the command filter against the provided command name.
    ///
    /// If no filter is present, the command will always match.
    pub fn matches(&self, command: &str) -> (r: bool)
        requires
            self.wf(),
        ensures
            r == name_filter_passes(self@, command@),
    {
        match self {
            CommandNameFilter::Filter(filter) => {
                if topic_name_valid(command) {
                    topic_filter_matches(filter.as_str(), command)
                } else {
                    false
                }
            },
            CommandNameFilter::Never => false,
            CommandNameFilter::Always => true,
        }
    }
}

/// Under which key a subscription is registered: a device at a gateway, or all devices
/// of a gateway.
#[derive(Clone, Debug, PartialEq, Eq)]
pub enum SubscriptionKey {
    Device(CommandAddress),
    Wildcard(Id),
}

/// The mathematical value of a [`SubscriptionKey`].
pub enum SubscriptionKeyModel {
    Device(CommandAddressModel),
    Wildcard(IdModel),
}

impl View for SubscriptionKey {
    type V = SubscriptionKeyModel;

    open spec fn view(&self) -> SubscriptionKeyModel {
        match self {
            SubscriptionKey::Device(a) => SubscriptionKeyModel::Device(a@),
            SubscriptionKey::Wildcard(i) => SubscriptionKeyModel::Wildcard(i@),
        }
    }
}

impl SubscriptionKey {
    /// The two keys are the same.
    pub fn same(&self, other: &SubscriptionKey) -> (r: bool)
        ensures
            r == (self@ == other@),
    {
        match (self, other) {
            (SubscriptionKey::Device(a), SubscriptionKey::Device(b)) => a.same(b),
            (SubscriptionKey::Wildcard(a), SubscriptionKey::Wildcard(b)) => a.same(b),
            _ => false,
        }
    }
}

/// The handle of a subscription, used to end it.
#[derive(Clone, Debug, PartialEq, Eq)]
pub struct SubscriptionHandle {
    pub filter: CommandFilter,
    pub id: usize,
}

impl SubscriptionHandle {
    /// The (normalized) filter the subscription was made with.
    pub fn filter(&self) -> (r: &CommandFilter)
        ensures
            r == self.filter,
    {
        &self.filter
    }

    /// The id of the subscription.
    pub fn id(&self) -> (r: usize)
        ensures
            r == self.id,
    {
        self.id
    }
}

/// A filter whose device is its own gateway stands for all commands of that gateway.
pub open spec fn normalized_filter(f: CommandFilterModel) -> CommandFilterModel {
    if f.device is Some && f.device->0 == f.gateway {
        CommandFilterModel { device: None, ..f }
    } else {
        f
    }
}

/// The key a (normalized) filter registers under.
pub open spec fn key_of_filter(f: CommandFilterModel) -> SubscriptionKeyModel {
    match f.device {
        Some(d) => SubscriptionKeyModel::Device(
            CommandAddressModel { app_id: f.application, gateway_id: f.gateway, device_id: d },
        ),
        None => SubscriptionKeyModel::Wildcard(
            IdModel { app_id: f.application, device_id: f.gateway },
        ),
    }
}

/// One subscription: its key and id, the filter on command names, and where commands go.
pub struct Registration<T> {
    pub key: SubscriptionKey,
    pub id: usize,
    pub filter: CommandNameFilter,
    pub target: T,
}

/// The mathematical value of a [`Registration`].
pub struct RegistrationModel<T> {
    pub key: SubscriptionKeyModel,
    pub id: usize,
    pub filter: CommandNameFilterModel,
    pub target: T,
}

/// The model of one registration.
pub open spec fn registration_model<T>(r: Registration<T>) -> RegistrationModel<T> {
    RegistrationModel { key: r.key@, id: r.id, filter: r.filter@, target: r.target }
}

/// Some registration holds this key and id.
pub open spec fn is_registered<T>(regs: Seq<RegistrationModel<T>>, key: SubscriptionKeyModel, id: usize) -> bool {
    exists|i: int| 0 <= i < regs.len() && #[trigger] regs[i].key == key && regs[i].id == id
}

/// No two registrations share key and id.
pub open spec fn unique_registrations<T>(regs: Seq<RegistrationModel<T>>) -> bool {
    forall|i: int, j: int|
        0 <= i < regs.len() && 0 <= j < regs.len() && i != j && #[trigger] regs[i].key
            == #[trigger] regs[j].key ==> regs[i].id != regs[j].id
}

/// A registration that is not the one under this key and id.
pub open spec fn other_than<T>(key: SubscriptionKeyModel, id: usize) -> spec_fn(RegistrationModel<T>) -> bool {
    |r: RegistrationModel<T>| !(r.key == key && r.id == id)
}

/// The registrations in order, without the one under this key and id.
pub open spec fn without_registration<T>(
    regs: Seq<RegistrationModel<T>>,
    key: SubscriptionKeyModel,
    id: usize,
) -> Seq<RegistrationModel<T>> {
    regs.filter(other_than(key, id))
}

/// The positions `0 .. n`.
pub open spec fn positions(n: nat) -> Seq<usize> {
    Seq::new(n, |i: int| i as usize)
}

/// The key under which device subscriptions receive a command for this address.
pub open spec fn device_key(a: CommandAddressModel) -> SubscriptionKeyModel {
    SubscriptionKeyModel::Device(a)
}

/// The key under which gateway-wide subscriptions receive a command for this address.
pub open spec fn wildcard_key(a: CommandAddressModel) -> SubscriptionKeyModel {
    SubscriptionKeyModel::Wildcard(IdModel { app_id: a.app_id, device_id: a.gateway_id })
}

/// The registration at position `i` receives a command with this name under this key.
pub open spec fn receives<T>(
    regs: Seq<RegistrationModel<T>>,
    key: SubscriptionKeyModel,
    command: Seq<char>,
    i: usize,
) -> bool {
    &&& (i as int) < regs.len()
    &&& regs[i as int].key == key
    &&& name_filter_passes(regs[i as int].filter, command)
}

/// The predicate form of [`receives`].
pub open spec fn receiver<T>(
    regs: Seq<RegistrationModel<T>>,
    key: SubscriptionKeyModel,
    command: Seq<char>,
) -> spec_fn(usize) -> bool {
    |i: usize| receives(regs, key, command, i)
}

/// The positions of the registrations that receive a command, in the order they receive
/// it: the subscriptions for the device first, then those for all devices of its gateway.
pub open spec fn deliveries<T>(
    regs: Seq<RegistrationModel<T>>,
    address: CommandAddressModel,
    command: Seq<char>,
) -> Seq<usize> {
    positions(regs.len()).filter(receiver(regs, device_key(address), command))
        + positions(regs.len()).filter(receiver(regs, wildcard_key(address), command))
}

/// Filtering keeps a sequence whose elements all pass.
proof fn lemma_filter_keeps_all<A>(s: Seq<A>, p: spec_fn(A) -> bool)
    requires
        forall|i: int| 0 <= i < s.len() ==> p(#[trigger] s[i]),
    ensures
        s.filter(p) == s,
    decreases s.len(),
{
    if s.len() > 0 {
        let t = s.drop_last();
        lemma_filter_keeps_all(t, p);
        assert(s == t.push(s.last()));
        t.lemma_filter_push(s.last(), p);
    } else {
        reveal(Seq::filter);
    }
}

/// Filtering out the one element that fails is removing it.
proof fn lemma_filter_drops_one<A>(s: Seq<A>, p: spec_fn(A) -> bool, k: int)
    requires
        0 <= k < s.len(),
        !p(s[k]),
        forall|i: int| 0 <= i < s.len() && i != k ==> p(#[trigger] s[i]),
    ensures
        s.filter(p) == s.remove(k),
    decreases s.len(),
{
    let t = s.drop_last();
    assert(s == t.push(s.last()));
    t.lemma_filter_push(s.last(), p);
    if k == s.len() - 1 {
        lemma_filter_keeps_all(t, p);
        assert(s.remove(k) =~= t);
    } else {
        lemma_filter_drops_one(t, p, k);
        assert(s.remove(k) =~= t.remove(k).push(s.last()));
    }
}

/// Ending a subscription right after making it leaves the registrations as they were.
pub proof fn lemma_unsubscribe_undoes_subscribe<T>(
    regs: Seq<RegistrationModel<T>>,
    reg: RegistrationModel<T>,
)
    requires
        !is_registered(regs, reg.key, reg.id),
    ensures
        without_registration(regs.push(reg), reg.key, reg.id) == regs,
{
    let s = regs.push(reg);
    let p = other_than::<T>(reg.key, reg.id);
    assert forall|i: int| 0 <= i < s.len() && i != regs.len() implies p(#[trigger] s[i]) by {
        assert(s[i] == regs[i]);
    }
    lemma_filter_drops_one(s, p, regs.len() as int);
    assert(s.remove(regs.len() as int) =~= regs);
}

/// Calls `rand::random::<usize>()`: any value may come back.
#[verifier::external_body]
fn random_id() -> usize {
    rand::random::<usize>()
}

/// Among `n` registrations with unique key and id, one of the ids `0 ..= n` is free
/// under any key.
proof fn lemma_free_id_exists<T>(regs: Seq<RegistrationModel<T>>, key: SubscriptionKeyModel)
    requires
        unique_registrations(regs),
        regs.len() <= usize::MAX,
    ensures
        exists|c: usize| c <= regs.len() && !#[trigger] is_registered(regs, key, c),
{
    if forall|c: usize| c <= regs.len() ==> #[trigger] is_registered(regs, key, c) {
        lemma_ids_run_out(regs, key);
    }
}

proof fn lemma_ids_run_out<T>(regs: Seq<RegistrationModel<T>>, key: SubscriptionKeyModel)
    requires
        unique_registrations(regs),
        forall|c: usize| c <= regs.len() ==> #[trigger] is_registered(regs, key, c),
        regs.len() <= usize::MAX,
    ensures
        regs.len() + 1 <= regs.len(),
{
    let n = regs.len() as int;
    let f = |c: int|
        choose|i: int| 0 <= i < regs.len() && #[trigger] regs[i].key == key && regs[i].id == c
            as usize;
    let dom = vstd::set_lib::set_int_range(0, n + 1);
    vstd::set_lib::lemma_int_range(0, n + 1);
    assert forall|c: int| dom.contains(c) implies {
        let i = f(c);
        0 <= i < regs.len() && regs[i].key == key && regs[i].id == c as usize
    } by {
        assert(c as usize <= regs.len());
        assert(is_registered(regs, key, c as usize));
    }
    assert(vstd::relations::injective_on(f, dom)) by {
        assert forall|a: int, b: int| dom.contains(a) && dom.contains(b) && #[trigger] f(a) == #[trigger] f(b) implies a == b by {
            assert(0 <= a <= usize::MAX && 0 <= b <= usize::MAX);
            assert(regs[f(a)].id == a as usize);
            assert(regs[f(b)].id == b as usize);
        }
    }
    let img = dom.map(f);
    vstd::set_lib::lemma_map_size(dom, img, f);
    let range = vstd::set_lib::set_int_range(0, n);
    vstd::set_lib::lemma_int_range(0, n);
    assert(img.subset_of(range)) by {
        assert forall|i: int| img.contains(i) implies range.contains(i) by {
            let c = choose|c: int| dom.contains(c) && f(c) == i;
        }
    }
    vstd::set_lib::lemma_len_subset(img, range);
}

/// The filter with a device that is its own gateway turned into a gateway-wide one.
fn normalize_filter(filter: CommandFilter) -> (r: CommandFilter)
    ensures
        r@ == normalized_filter(filter@),
{
    let same = match &filter.device {
        Some(d) => *d == filter.gateway,
        None => false,
    };
    if same {
        CommandFilter { device: None, ..filter }
    } else {
        filter
    }
}

/// The key a filter registers under.
fn key_of(filter: &CommandFilter) -> (r: SubscriptionKey)
    ensures
        r@ == key_of_filter(filter@),
{
    match &filter.device {
        Some(device) => SubscriptionKey::Device(
            CommandAddress {
                app_id: filter.application.clone(),
                gateway_id: filter.gateway.clone(),
                device_id: device.clone(),
            },
        ),
        None => SubscriptionKey::Wildcard(
            Id { app_id: filter.application.clone(), device_id: filter.gateway.clone() },
        ),
    }
}

/// The subscriptions of devices and gateways to commands.
pub struct Commands<T> {
    regs: Vec<Registration<T>>,
}

impl<T> View for Commands<T> {
    type V = Seq<RegistrationModel<T>>;

    closed spec fn view(&self) -> Seq<RegistrationModel<T>> {
        self.regs@.map_values(|r: Registration<T>| registration_model(r))
    }
}

impl<T> Commands<T> {
    /// The registry is well formed: key and id are unique, name filters are valid.
    pub closed spec fn wf(&self) -> bool {
        &&& unique_registrations(self@)
        &&& forall|i: int| 0 <= i < self.regs@.len() ==> (#[trigger] self.regs@[i]).filter.wf()
    }

    /// An empty registry.
    pub fn new() -> (r: Commands<T>)
        ensures
            r.wf(),
            r@ == Seq::<RegistrationModel<T>>::empty(),
    {
        let r = Commands { regs: Vec::new() };
        assert(r@ =~= Seq::<RegistrationModel<T>>::empty());
        r
    }

    /// The number of subscriptions.
    pub fn len(&self) -> (r: usize)
        ensures
            r == self@.len(),
    {
        self.regs.len()
    }

    /// The target of the subscription at position `i`.
    pub fn target(&self, i: usize) -> (r: &T)
        requires
            i < self@.len(),
        ensures
            *r == self@[i as int].target,
    {
        &self.regs[i].target
    }

    /// Whether some subscription holds this key and id.
    pub fn contains(&self, key: &SubscriptionKey, id: usize) -> (r: bool)
        ensures
            r == is_registered(self@, key@, id),
    {
        let mut i: usize = 0;
        while i < self.regs.len()
            invariant
                i <= self.regs@.len(),
                forall|j: int|
                    0 <= j < i ==> !(#[trigger] self@[j].key == key@ && self@[j].id == id),
            decreases self.regs@.len() - i,
        {
            if self.regs[i].id == id && self.regs[i].key.same(key) {
                assert(self@[i as int].key == key@);
                return true;
            }
            i += 1;
        }
        false
    }

    /// Subscribe to commands: the filter is normalized (a device that is its own gateway
    /// stands for the whole gateway), registered under a fresh id with its command name
    /// filter, and its handle returned.
    pub fn subscribe(&mut self, filter: CommandFilter, target: T) -> (h: SubscriptionHandle)
        requires
            old(self).wf(),
        ensures
            final(self).wf(),
            h.filter@ == normalized_filter(filter@),
            !is_registered(old(self)@, key_of_filter(h.filter@), h.id),
            final(self)@ == old(self)@.push(
                RegistrationModel {
                    key: key_of_filter(h.filter@),
                    id: h.id,
                    filter: name_filter_of(filter@.command_filter),
                    target,
                },
            ),
    {
        let name_filter = CommandNameFilter::from(&filter.command_filter);
        let filter = normalize_filter(filter);
        let key = key_of(&filter);
        let id = self.fresh_id(&key);
        let ghost before = self@;
        self.regs.push(Registration { key, id, filter: name_filter, target });
        assert(self@ =~= before.push(registration_model(self.regs@.last())));
        proof {
            assert forall|i: int, j: int|
                0 <= i < self@.len() && 0 <= j < self@.len() && i != j && #[trigger] self@[i].key
                    == #[trigger] self@[j].key implies self@[i].id != self@[j].id by {
                if i == before.len() as int {
                    assert(before[j] == self@[j]);
                } else if j == before.len() as int {
                    assert(before[i] == self@[i]);
                } else {
                    assert(before[i] == self@[i] && before[j] == self@[j]);
                }
            }
        }
        SubscriptionHandle { filter, id }
    }

    /// End a subscription: the registration under the handle's key and id is removed,
    /// all others stay in order.
    pub fn unsubscribe(&mut self, handle: &SubscriptionHandle)
        requires
            old(self).wf(),
        ensures
            final(self).wf(),
            final(self)@ == without_registration(old(self)@, key_of_filter(handle.filter@), handle.id),
    {
        let key = key_of(&handle.filter);
        let id = handle.id;
        let ghost before = self@;
        let ghost p = other_than::<T>(key@, id);
        let mut i: usize = 0;
        while i < self.regs.len()
            invariant
                self@ == before,
                before == old(self)@,
                id == handle.id,
                p == other_than::<T>(key@, id),
                key@ == key_of_filter(handle.filter@),
                self.wf(),
                i <= self.regs@.len(),
                forall|j: int| 0 <= j < i ==> p(#[trigger] before[j]),
            decreases self.regs@.len() - i,
        {
            if self.regs[i].id == id && self.regs[i].key.same(&key) {
                proof {
                    assert(before[i as int] == registration_model(self.regs@[i as int]));
                    assert(before[i as int].key == key@ && before[i as int].id == id);

                    assert forall|j: int| 0 <= j < before.len() && j != i implies p(
                        #[trigger] before[j],
                    ) by {
                        if j > i && before[j].key == key@ {
                            assert(before[j].key == before[i as int].key);
                        }
                    }
                    lemma_filter_drops_one(before, p, i as int);
                }
                self.regs.remove(i);
                assert(self@ =~= before.remove(i as int));
                proof {
                    assert forall|a: int, b: int|
                        0 <= a < self@.len() && 0 <= b < self@.len() && a != b
                            && #[trigger] self@[a].key == #[trigger] self@[b].key implies self@[a].id
                        != self@[b].id by {
                        let a0 = if a < i { a } else { a + 1 };
                        let b0 = if b < i { b } else { b + 1 };
                        assert(self@[a] == before[a0] && self@[b] == before[b0]);
                    }
                    assert(self@ == before.filter(p));
                    assert(self@ == without_registration(before, key@, id));
                }
                return;
            }
            i += 1;
        }
        proof {
            lemma_filter_keeps_all(before, p);
        }
    }

    /// The positions of the subscriptions that receive a command: those for its device
    /// whose name filter passes it, then those for all devices of its gateway whose name
    /// filter passes it.
    pub fn deliveries(&self, address: &CommandAddress, command: &str) -> (r: Vec<usize>)
        requires
            self.wf(),
        ensures
            r@ == deliveries(self@, address@, command@),
    {
        let device = SubscriptionKey::Device(
            CommandAddress {
                app_id: address.app_id.clone(),
                gateway_id: address.gateway_id.clone(),
                device_id: address.device_id.clone(),
            },
        );
        let wildcard = SubscriptionKey::Wildcard(
            Id { app_id: address.app_id.clone(), device_id: address.gateway_id.clone() },
        );
        let a = self.positions_for(&device, command);
        let b = self.positions_for(&wildcard, command);
        let mut r = a;
        let mut b = b;
        r.append(&mut b);
        r
    }

    fn positions_for(&self, key: &SubscriptionKey, command: &str) -> (r: Vec<usize>)
        requires
            self.wf(),
        ensures
            r@ == positions(self@.len()).filter(receiver(self@, key@, command@)),
    {
        let ghost p = receiver(self@, key@, command@);
        let mut r: Vec<usize> = Vec::new();
        let mut i: usize = 0;
        while i < self.regs.len()
            invariant
                self.wf(),
                p == receiver(self@, key@, command@),
                i <= self.regs@.len(),
                r@ == positions(i as nat).filter(p),
            decreases self.regs@.len() - i,
        {
            proof {
                assert(positions((i + 1) as nat) =~= positions(i as nat).push(i));
                positions(i as nat).lemma_filter_push(i, p);
            }
            let reg = &self.regs[i];
            assert(reg.filter.wf());
            assert(self@[i as int] == registration_model(self.regs@[i as int]));
            if reg.key.same(key) && reg.filter.matches(command) {
                r.push(i);
            }
            i += 1;
        }
        assert(positions(self@.len()) =~= positions(i as nat));
        r
    }

    /// An id that no subscription under `key` holds: a random one, and where a few random
    /// picks all collide, the first free one counting from zero.
    fn fresh_id(&self, key: &SubscriptionKey) -> (r: usize)
        requires
            self.wf(),
        ensures
            !is_registered(self@, key@, r),
    {
        let mut attempts: usize = 0;
        while attempts < 16
            invariant
                self.wf(),
            decreases 16 - attempts,
        {
            let id = random_id();
            if !self.contains(key, id) {
                return id;
            }
            attempts += 1;
        }
        let n = self.regs.len();
        let mut c: usize = 0;
        while c < n
            invariant
                c <= n,
                n == self@.len(),
                forall|k: usize| k < c ==> #[trigger] is_registered(self@, key@, k),
            decreases n - c,
        {
            if !self.contains(key, c) {
                return c;
            }
            c += 1;
        }
        if !self.contains(key, n) {
            return n;
        }
        proof {
            lemma_free_id_exists(self@, key@);
            let k = choose|k: usize| k <= self@.len() && !#[trigger] is_registered(self@, key@, k);
            assert(k < n || k == n);
        }
        n
    }
}

} // verus!
