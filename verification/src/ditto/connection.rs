//! The Kafka connections that the operator configures in Ditto for an application: an
//! inbound one reading the application's events, and an optional outbound one exporting
//! twin events.
use crate::ditto::devops::{
    texts, EnforcementModel, Connection, ConnectionModel, ConnectionStatus, ConnectivityResponse, Enforcement,
    MappingDefinition, MappingDefinitionModel, NamespaceResponse, QoS, Source, SourceModel,
    Target, TargetModel,
};
use crate::ordered::{
    insert_pairs, inserted, inserted_all, lemma_inserted_reads_back, lookup, str_pairs, string_entries, string_map_insert,
    string_map_new,
};
use crate::kafka::{get_property, property, KafkaClientConfig};
use crate::registry::Application;
use crate::text::{
    chars_of, concat, decimal, decimal_text, find_char, has_prefix, join_strings, joined,
    replace_all, replaced, slice_chars, str_is, str_starts_with, string_of,
};
use crate::urls::{parse_url, set_url_password, set_url_username, url_parsed, url_with_password, url_with_username};
use indexmap::IndexMap;
use crate::sender::{hex_digit, is_ascii_alphanumeric};
use vstd::prelude::*;
use vstd::utf8::encode_utf8;

verus! {

/// Why reconciling failed: permanently, or for now (to be tried again).
#[derive(Debug, PartialEq, Eq)]
pub enum ReconcileError {
    Permanent(String),
    Temporary(String),
}

/// The mathematical value of a [`ReconcileError`].
pub enum ReconcileErrorModel {
    Permanent(Seq<char>),
    Temporary(Seq<char>),
}

impl View for ReconcileError {
    type V = ReconcileErrorModel;

    open spec fn view(&self) -> ReconcileErrorModel {
        match self {
            ReconcileError::Permanent(m) => ReconcileErrorModel::Permanent(m@),
            ReconcileError::Temporary(m) => ReconcileErrorModel::Temporary(m@),
        }
    }
}

/// The view of a result without a value.
pub open spec fn unit_result(r: Result<(), ReconcileError>) -> Result<(), ReconcileErrorModel> {
    match r {
        Ok(()) => Ok(()),
        Err(e) => Err(e@),
    }
}

/// The two connections of an application.
#[derive(Debug, Clone, Copy, PartialEq, Eq)]
pub enum ConnectionType {
    Inbound,
    Outbound,
}

/// The id of an application's connection of this type.
pub open spec fn connection_id_of(kind: ConnectionType, app_name: Seq<char>) -> Seq<char> {
    match kind {
        ConnectionType::Inbound => "kafka-drogue-"@ + app_name,
        ConnectionType::Outbound => "drogue-out-"@ + app_name,
    }
}

/// An application's inbound and outbound connections have different ids.
pub proof fn lemma_connection_ids_differ(app_name: Seq<char>)
    ensures
        connection_id_of(ConnectionType::Inbound, app_name) != connection_id_of(
            ConnectionType::Outbound,
            app_name,
        ),
{
    reveal_strlit("kafka-drogue-");
    reveal_strlit("drogue-out-");
    assert(connection_id_of(ConnectionType::Inbound, app_name)[0] == 'k');
    assert(connection_id_of(ConnectionType::Outbound, app_name)[0] == 'd');
}

/// The id of a connection tells its application: two applications' connections of the
/// same type have the same id only when the applications have the same name.
pub proof fn lemma_connection_id_injective(kind: ConnectionType, a: Seq<char>, b: Seq<char>)
    requires
        connection_id_of(kind, a) == connection_id_of(kind, b),
    ensures
        a == b,
{
    let p = match kind {
        ConnectionType::Inbound => "kafka-drogue-"@,
        ConnectionType::Outbound => "drogue-out-"@,
    };
    assert((p + a).skip(p.len() as int) =~= a);
    assert((p + b).skip(p.len() as int) =~= b);
}

impl ConnectionType {
    /// The id of the connection of this type for the application.
    pub fn connection_id(&self, app: &Application) -> (r: String)
        ensures
            r@ == connection_id_of(*self, app.name@),
    {
        match self {
            ConnectionType::Inbound => concat("kafka-drogue-", app.name.as_str()),
            ConnectionType::Outbound => concat("drogue-out-", app.name.as_str()),
        }
    }
}

/// The error text of a DevOps response with a failing status.
pub open spec fn devops_error_text(status: u32, error: Option<Seq<char>>) -> Seq<char> {
    "DevOps error ("@ + decimal(status as nat) + "): "@ + match error {
        Some(e) => e,
        None => Seq::empty(),
    }
}

/// What a connectivity response means: its last entry decides; a status of 200 to 299
/// is success.
pub open spec fn con_response_result(entries: Seq<(String, crate::ditto::devops::ConnectivityResponseEntry)>) -> Result<
    (),
    ReconcileErrorModel,
> {
    if entries.len() == 0 {
        Err(ReconcileErrorModel::Permanent("Missing devops response"@))
    } else {
        let e = entries.last().1;
        if 200 <= e.status <= 299 {
            Ok(())
        } else {
            Err(
                ReconcileErrorModel::Permanent(
                    devops_error_text(
                        e.status,
                        match e.error {
                            Some(t) => Some(t@),
                            None => None,
                        },
                    ),
                ),
            )
        }
    }
}

/// Evaluates the response to a connectivity command.
pub fn eval_con_response(response: ConnectivityResponse) -> (r: Result<(), ReconcileError>)
    ensures
        unit_result(r) == con_response_result(response.connectivity@),
{
    let mut response = response;
    match response.connectivity.pop() {
        Some((_, entry)) => {
            if 200 <= entry.status && entry.status <= 299 {
                Ok(())
            } else {
                let mut text = concat("DevOps error (", decimal_text(entry.status as u64).as_str());
                crate::text::append_str(&mut text, "): ");
                match &entry.error {
                    Some(e) => crate::text::append_str(&mut text, e.as_str()),
                    None => {},
                }
                proof {
                    assert(text@ =~= devops_error_text(
                        entry.status,
                        match entry.error {
                            Some(t) => Some(t@),
                            None => None,
                        },
                    ));
                }
                Err(ReconcileError::Permanent(text))
            }
        },
        None => Err(ReconcileError::Permanent("Missing devops response".to_owned())),
    }
}

/// What a namespace response means: its last entry decides; a status of 200 to 299 is
/// success.
pub open spec fn ns_response_result(entries: Seq<(String, crate::ditto::devops::NamespaceResponseEntry)>) -> Result<
    (),
    ReconcileErrorModel,
> {
    if entries.len() == 0 {
        Err(ReconcileErrorModel::Permanent("Missing devops response"@))
    } else {
        let e = entries.last().1;
        if 200 <= e.status <= 299 {
            Ok(())
        } else {
            Err(ReconcileErrorModel::Permanent("DevOps error ("@ + decimal(e.status as nat) + ")"@))
        }
    }
}

/// Evaluates the response to a namespace command.
pub fn eval_ns_response(response: NamespaceResponse) -> (r: Result<(), ReconcileError>)
    ensures
        unit_result(r) == ns_response_result(response.entries@),
{
    let mut response = response;
    match response.entries.pop() {
        Some((_, entry)) => {
            if 200 <= entry.status && entry.status <= 299 {
                Ok(())
            } else {
                let mut text = concat("DevOps error (", decimal_text(entry.status as u64).as_str());
                crate::text::append_str(&mut text, ")");
                Err(ReconcileError::Permanent(text))
            }
        },
        None => Err(ReconcileError::Permanent("Missing devops response".to_owned())),
    }
}


/// What a Ditto connection takes from the Kafka settings.
#[derive(Debug)]
pub struct DittoKafkaOptions {
    pub uri: String,
    pub specific_config: IndexMap<String, String>,
    pub validate_certificates: bool,
    pub ca: Option<String>,
}

/// The bootstrap servers, with each `.:` replaced by `:` (Ditto does not accept a host
/// name with a trailing dot).
pub open spec fn bootstrap_of(config: KafkaClientConfig) -> Seq<char> {
    replaced(config.bootstrap_servers@, ".:"@, ":"@)
}

/// The URL scheme: `ssl` for the `SSL` and `SASL_SSL` security protocols, else `tcp`.
pub open spec fn scheme_of(props: Seq<(String, String)>) -> Seq<char> {
    match property(props, "security.protocol"@) {
        Some(p) => if p == "SSL"@ || p == "SASL_SSL"@ {
            "ssl"@
        } else {
            "tcp"@
        },
        None => "tcp"@,
    }
}

/// The URI of the Kafka servers, with the SASL user name and password where a user name
/// is set; `None` where it cannot be built.
pub open spec fn kafka_uri(config: KafkaClientConfig) -> Option<Seq<char>> {
    let props = config.properties@;
    match url_parsed(scheme_of(props) + "://"@ + bootstrap_of(config)) {
        Err(_) => None,
        Ok(url) => match property(props, "sasl.username"@) {
            None => Some(url),
            Some(user) => match url_with_username(url, user) {
                None => None,
                Some(with_user) => url_with_password(with_user, property(props, "sasl.password"@)),
            },
        },
    }
}

/// The prefix of the properties that are copied into the specific configuration.
pub open spec fn specific_prefix() -> Seq<char> {
    "ditto.specificConfig."@
}

/// The specific configuration before the copied properties: the bootstrap servers, the
/// SASL mechanism where one is set, and the consumer group.
pub open spec fn base_specific(config: KafkaClientConfig, group_id: Seq<char>) -> Seq<(Seq<char>, Seq<char>)> {
    let first = inserted(Seq::empty(), "bootstrapServers"@, bootstrap_of(config));
    let second = match property(config.properties@, "sasl.mechanism"@) {
        Some(m) => inserted(first, "saslMechanism"@, m),
        None => first,
    };
    inserted(second, "groupId"@, group_id)
}

/// `entries` after inserting, in order, each property whose name has the specific prefix,
/// under its name without the prefix.
pub open spec fn with_specific(props: Seq<(String, String)>, entries: Seq<(Seq<char>, Seq<char>)>) -> Seq<
    (Seq<char>, Seq<char>),
>
    decreases props.len(),
{
    if props.len() == 0 {
        entries
    } else {
        let before = with_specific(props.drop_last(), entries);
        let (k, v) = props.last();
        if has_prefix(k@, specific_prefix()) {
            inserted(before, k@.skip(specific_prefix().len() as int), v@)
        } else {
            before
        }
    }
}

/// The specific configuration of a connection.
pub open spec fn specific_config_of(config: KafkaClientConfig, group_id: Seq<char>) -> Seq<(Seq<char>, Seq<char>)> {
    with_specific(config.properties@, base_specific(config, group_id))
}

/// Whether certificates are validated: unless `ditto.validateCertificates` is set to
/// anything but `true`.
pub open spec fn validates_certificates(props: Seq<(String, String)>) -> bool {
    match property(props, "ditto.validateCertificates"@) {
        Some(v) => v == "true"@,
        None => true,
    }
}

/// Properties without the specific prefix are not copied.
proof fn lemma_with_specific_none(props: Seq<(String, String)>, entries: Seq<(Seq<char>, Seq<char>)>)
    requires
        forall|i: int| 0 <= i < props.len() ==> !has_prefix((#[trigger] props[i]).0@, specific_prefix()),
    ensures
        with_specific(props, entries) == entries,
    decreases props.len(),
{
    if props.len() > 0 {
        let prev = props.drop_last();
        assert forall|i: int| 0 <= i < prev.len() implies !has_prefix((#[trigger] prev[i]).0@, specific_prefix()) by {
            assert(prev[i] == props[i]);
        }
        lemma_with_specific_none(prev, entries);
        assert(props.last() == props[props.len() - 1]);
    }
}

/// The specific configuration of a connection whose properties have none with the
/// `ditto.specificConfig.` prefix: `bootstrapServers` is the bootstrap servers, `groupId`
/// the consumer group, `saslMechanism` the `sasl.mechanism` property (absent without one).
/// Certificates are validated unless `ditto.validateCertificates` is set to something other
/// than `true`.
pub proof fn law_connection_settings(config: KafkaClientConfig, group_id: Seq<char>)
    ensures
        (forall|i: int|
            0 <= i < config.properties@.len() ==> !has_prefix(
                (#[trigger] config.properties@[i]).0@,
                specific_prefix(),
            )) ==> {
            &&& lookup(specific_config_of(config, group_id), "bootstrapServers"@) == Some(bootstrap_of(config))
            &&& lookup(specific_config_of(config, group_id), "groupId"@) == Some(group_id)
            &&& lookup(specific_config_of(config, group_id), "saslMechanism"@) == property(
                config.properties@,
                "sasl.mechanism"@,
            )
        },
        property(config.properties@, "ditto.validateCertificates"@) is None ==> validates_certificates(
            config.properties@,
        ),
        property(config.properties@, "ditto.validateCertificates"@) matches Some(v) ==> (validates_certificates(
            config.properties@,
        ) <==> v == "true"@),
{
    let props = config.properties@;
    if forall|i: int| 0 <= i < props.len() ==> !has_prefix((#[trigger] props[i]).0@, specific_prefix()) {
        lemma_with_specific_none(props, base_specific(config, group_id));
        reveal_strlit("bootstrapServers");
        reveal_strlit("groupId");
        reveal_strlit("saslMechanism");
        assert("bootstrapServers"@.len() == 16 && "groupId"@.len() == 7 && "saslMechanism"@.len() == 13);
        let empty = Seq::<(Seq<char>, Seq<char>)>::empty();
        let first = inserted(empty, "bootstrapServers"@, bootstrap_of(config));
        lemma_inserted_reads_back(empty, "bootstrapServers"@, bootstrap_of(config), "groupId"@);
        lemma_inserted_reads_back(empty, "bootstrapServers"@, bootstrap_of(config), "saslMechanism"@);
        assert(lookup(empty, "saslMechanism"@) is None) by {
            assert(crate::ordered::keys_of(empty) =~= Seq::empty());
        }
        assert(lookup(empty, "groupId"@) is None) by {
            assert(crate::ordered::keys_of(empty) =~= Seq::empty());
        }
        let second = match property(props, "sasl.mechanism"@) {
            Some(m) => inserted(first, "saslMechanism"@, m),
            None => first,
        };
        match property(props, "sasl.mechanism"@) {
            Some(m) => {
                lemma_inserted_reads_back(first, "saslMechanism"@, m, "bootstrapServers"@);
                lemma_inserted_reads_back(first, "saslMechanism"@, m, "groupId"@);
            },
            None => {},
        }
        lemma_inserted_reads_back(second, "groupId"@, group_id, "bootstrapServers"@);
        lemma_inserted_reads_back(second, "groupId"@, group_id, "saslMechanism"@);
    }
}

/// The scheme of the Kafka URI follows the security protocol: `ssl` exactly for `SSL` and
/// `SASL_SSL`, `tcp` for any other protocol or none. Without a SASL user name the URI is
/// the URL parsed from the scheme, `://` and the bootstrap servers, so it is an `ssl://`
/// URI for those two protocols.
pub proof fn law_kafka_uri_scheme(config: KafkaClientConfig)
    ensures
        property(config.properties@, "security.protocol"@) == Some("SSL"@) || property(
            config.properties@,
            "security.protocol"@,
        ) == Some("SASL_SSL"@) ==> scheme_of(config.properties@) == "ssl"@,
        !(property(config.properties@, "security.protocol"@) == Some("SSL"@) || property(
            config.properties@,
            "security.protocol"@,
        ) == Some("SASL_SSL"@)) ==> scheme_of(config.properties@) == "tcp"@,
        property(config.properties@, "sasl.username"@) is None ==> kafka_uri(config) == match url_parsed(
            scheme_of(config.properties@) + "://"@ + bootstrap_of(config),
        ) {
            Ok(u) => Some(u),
            Err(_) => None::<Seq<char>>,
        },
{
}

/// The text of the error where the URI cannot be built.
pub open spec fn bootstrap_url_error() -> ReconcileErrorModel {
    ReconcileErrorModel::Permanent("Failed to build Kafka bootstrap URL"@)
}

/// The view of an optional string.
pub open spec fn opt_view(o: Option<String>) -> Option<Seq<char>> {
    match o {
        Some(s) => Some(s@),
        None => None,
    }
}

/// Builds the URI of the Kafka servers.
fn build_uri(config: &KafkaClientConfig, bootstrap: &str) -> (r: Option<String>)
    requires
        bootstrap@ == bootstrap_of(*config),
    ensures
        opt_view(r) == kafka_uri(*config),
{
    let scheme = match get_property(&config.properties, "security.protocol") {
        Some(p) => if str_is(p.as_str(), "SSL") || str_is(p.as_str(), "SASL_SSL") {
            "ssl"
        } else {
            "tcp"
        },
        None => "tcp",
    };
    let mut text = concat(scheme, "://");
    crate::text::append_str(&mut text, bootstrap);
    let url = match parse_url(text.as_str()) {
        Ok(u) => u,
        Err(_) => {
            return None;
        },
    };
    match get_property(&config.properties, "sasl.username") {
        None => Some(url),
        Some(user) => match set_url_username(url.as_str(), user.as_str()) {
            None => None,
            Some(with_user) => {
                let password = match get_property(&config.properties, "sasl.password") {
                    Some(p) => Some(p.as_str()),
                    None => None,
                };
                set_url_password(with_user.as_str(), password)
            },
        },
    }
}

/// What a Ditto connection takes from Kafka settings: the URI, the specific
/// configuration, whether certificates are validated, and the CA (`ditto.ca`).
pub fn connection_info(config: &KafkaClientConfig, group_id: String) -> (r: Result<
    DittoKafkaOptions,
    ReconcileError,
>)
    requires
        config.wf(),
    ensures
        match r {
            Ok(o) => {
                &&& kafka_uri(*config) == Some(o.uri@)
                &&& string_entries(o.specific_config) == specific_config_of(*config, group_id@)
                &&& o.validate_certificates == validates_certificates(config.properties@)
                &&& opt_view(o.ca) == property(config.properties@, "ditto.ca"@)
            },
            Err(e) => kafka_uri(*config) is None && e@ == bootstrap_url_error(),
        },
{
    proof {
        reveal_strlit(".:");
    }
    let bootstrap = replace_all(config.bootstrap_servers.as_str(), ".:", ":");
    let uri = match build_uri(config, bootstrap.as_str()) {
        Some(u) => u,
        None => {
            return Err(ReconcileError::Permanent("Failed to build Kafka bootstrap URL".to_owned()));
        },
    };
    let mut specific = string_map_new();
    string_map_insert(&mut specific, "bootstrapServers".to_owned(), bootstrap);
    match get_property(&config.properties, "sasl.mechanism") {
        Some(m) => string_map_insert(&mut specific, "saslMechanism".to_owned(), m.clone()),
        None => {},
    }
    string_map_insert(&mut specific, "groupId".to_owned(), group_id);
    let validate_certificates = match get_property(
        &config.properties,
        "ditto.validateCertificates",
    ) {
        Some(v) => str_is(v.as_str(), "true"),
        None => true,
    };
    let ca = match get_property(&config.properties, "ditto.ca") {
        Some(c) => Some(c.clone()),
        None => None,
    };
    let ghost props = config.properties@;
    let ghost base = base_specific(*config, group_id@);
    let prefix = chars_of("ditto.specificConfig.");
    let mut i: usize = 0;
    assert(props.take(0) =~= Seq::<(String, String)>::empty());
    while i < config.properties.len()
        invariant
            props == config.properties@,
            prefix@ == specific_prefix(),
            i <= props.len(),
            string_entries(specific) == with_specific(props.take(i as int), base),
        decreases props.len() - i,
    {
        let (k, v) = &config.properties[i];
        assert(props.take(i + 1).drop_last() =~= props.take(i as int));
        let kc = chars_of(k.as_str());
        if crate::text::starts_with(&kc, &prefix) {
            let rest = string_of(&slice_chars(&kc, prefix.len(), kc.len()));
            assert(rest@ =~= k@.skip(specific_prefix().len() as int));
            string_map_insert(&mut specific, rest, v.clone());
        }
        i += 1;
    }
    assert(props.take(i as int) =~= props);
    Ok(DittoKafkaOptions { uri, specific_config: specific, validate_certificates, ca })
}


/// The Ditto section of an application's spec.
#[derive(Debug)]
pub struct DittoAppSpec {
    pub exporter: Option<Exporter>,
    pub ingress: Option<Ingress>,
}

/// Settings of the inbound connection.
#[derive(Clone, Copy, Debug, PartialEq, Eq)]
pub struct Ingress {
    /// The number of clients of the connection.
    pub clients: Option<u32>,
    /// The number of consumers of its source.
    pub consumers: Option<u32>,
}

/// The export of twin events to Kafka.
#[derive(Debug)]
pub struct Exporter {
    pub kafka: KafkaClientConfig,
    pub targets: Vec<ExporterTarget>,
}

/// A Kafka topic that twin events are exported to.
#[derive(Debug)]
pub struct ExporterTarget {
    pub topic: String,
    pub mode: ExporterMode,
    pub subscriptions: Vec<DittoTopic>,
}

/// A Ditto topic that an export subscribes to.
#[derive(Debug, PartialEq, Eq)]
pub enum DittoTopic {
    /// The events of twins, with extra fields and a filter.
    TwinEvents { extra_fields: Vec<String>, filter: Option<String> },
}

/// How exported events are written.
#[derive(Clone, Copy, Debug, PartialEq, Eq)]
pub enum ExporterMode {
    /// As Ditto writes them.
    Ditto { normalized: bool },
    /// As cloud events.
    CloudEvents { normalized: bool },
}

impl Default for ExporterMode {
    /// Normalized cloud events.
    fn default() -> (r: ExporterMode)
        ensures
            r == (ExporterMode::CloudEvents { normalized: true }),
    {
        ExporterMode::CloudEvents { normalized: true }
    }
}

/// The payload mappers of an export: the normalizing one where the mode asks for it.
pub open spec fn outbound_mappers(mode: ExporterMode) -> Seq<Seq<char>> {
    let normalized = match mode {
        ExporterMode::Ditto { normalized } => normalized,
        ExporterMode::CloudEvents { normalized } => normalized,
    };
    if normalized {
        seq!["Normalized"@]
    } else {
        Seq::empty()
    }
}

/// The header mapping of an export: none for Ditto's own format, the cloud event
/// attributes for cloud events (inserted in this order).
pub open spec fn outbound_headers(mode: ExporterMode) -> Seq<(Seq<char>, Seq<char>)> {
    match mode {
        ExporterMode::Ditto { .. } => Seq::empty(),
        ExporterMode::CloudEvents { .. } => inserted_all(
            Seq::empty(),
            seq![
                ("ce_specversion"@, "1.0"@),
                ("ce_source"@, "ditto:instance/{{ thing:namespace }}/{{ thing:name }}"@),
                ("ce_id"@, "{{ header:correlation-id }}"@),
                ("ce_time"@, "{{ time:now }}"@),
                ("ce_type"@, "org.eclipse.io.ditto.v{{ header:version }}"@),
                ("ce_dataschema"@, "urn:eclipse:ditto"@),
                ("ce_application"@, "{{ thing:namespace }}"@),
                ("ce_device"@, "{{ thing:name }}"@),
                ("ce_subject"@, "{{ topic:action }}"@),
            ],
        ),
    }
}

/// The payload mappers and the header mapping of an export.
pub fn mapping_definitions_outbound(mode: &ExporterMode) -> (r: (Vec<String>, IndexMap<String, String>))
    ensures
        r.0@.map_values(|s: String| s@) == outbound_mappers(*mode),
        string_entries(r.1) == outbound_headers(*mode),
{
    let normalized = match mode {
        ExporterMode::Ditto { normalized } => *normalized,
        ExporterMode::CloudEvents { normalized } => *normalized,
    };
    let mut mappers: Vec<String> = Vec::new();
    if normalized {
        mappers.push("Normalized".to_owned());
    }
    assert(mappers@.map_values(|s: String| s@) =~= outbound_mappers(*mode));
    let mut headers = string_map_new();
    match mode {
        ExporterMode::Ditto { .. } => {},
        ExporterMode::CloudEvents { .. } => {
            let pairs = vec![
                ("ce_specversion", "1.0"),
                ("ce_source", "ditto:instance/{{ thing:namespace }}/{{ thing:name }}"),
                ("ce_id", "{{ header:correlation-id }}"),
                ("ce_time", "{{ time:now }}"),
                ("ce_type", "org.eclipse.io.ditto.v{{ header:version }}"),
                ("ce_dataschema", "urn:eclipse:ditto"),
                ("ce_application", "{{ thing:namespace }}"),
                ("ce_device", "{{ thing:name }}"),
                ("ce_subject", "{{ topic:action }}"),
            ];
            insert_pairs(&mut headers, &pairs);
            assert(str_pairs(pairs@) =~= seq![
                ("ce_specversion"@, "1.0"@),
                ("ce_source"@, "ditto:instance/{{ thing:namespace }}/{{ thing:name }}"@),
                ("ce_id"@, "{{ header:correlation-id }}"@),
                ("ce_time"@, "{{ time:now }}"@),
                ("ce_type"@, "org.eclipse.io.ditto.v{{ header:version }}"@),
                ("ce_dataschema"@, "urn:eclipse:ditto"@),
                ("ce_application"@, "{{ thing:namespace }}"@),
                ("ce_device"@, "{{ thing:name }}"@),
                ("ce_subject"@, "{{ topic:action }}"@),
            ]);
        },
    }
    (mappers, headers)
}


/// Whether form-urlencoding keeps a byte as it is: ASCII letters and digits, `*`, `-`,
/// `.` and `_`.
pub open spec fn form_unchanged(b: u8) -> bool {
    is_ascii_alphanumeric(b) || b == 42 || b == 45 || b == 46 || b == 95
}

/// A byte as form-urlencoding writes it: kept, a space as `+`, any other byte as `%` and
/// two upper case hexadecimal digits.
pub open spec fn form_byte(b: u8) -> Seq<char> {
    if form_unchanged(b) {
        seq![b as char]
    } else if b == 32 {
        seq!['+']
    } else {
        seq!['%', hex_digit(b / 16), hex_digit(b % 16)]
    }
}

/// Bytes form-urlencoded, one after the other.
pub open spec fn form_bytes(bytes: Seq<u8>) -> Seq<char>
    decreases bytes.len(),
{
    if bytes.len() == 0 {
        Seq::empty()
    } else {
        form_bytes(bytes.drop_last()) + form_byte(bytes.last())
    }
}

/// A text form-urlencoded: the bytes of its UTF-8 encoding.
pub open spec fn form_encoded(s: Seq<char>) -> Seq<char> {
    form_bytes(encode_utf8(s))
}

/// One pair as `key=value`, both form-urlencoded.
pub open spec fn form_pair(p: (Seq<char>, Seq<char>)) -> Seq<char> {
    form_encoded(p.0) + seq!['='] + form_encoded(p.1)
}

/// What `serde_urlencoded::to_string` gives for a list of string pairs: the
/// `application/x-www-form-urlencoded` text, the pairs in order joined by `&`; encoding
/// string pairs never fails.
pub open spec fn urlencoded(pairs: Seq<(Seq<char>, Seq<char>)>) -> Result<Seq<char>, Seq<char>> {
    Ok(joined(pairs.map_values(|p: (Seq<char>, Seq<char>)| form_pair(p)), '&'))
}

/// Calls `serde_urlencoded::to_string` on the entries of the map, in order. As the source of
/// `serde_urlencoded` and `form_urlencoded` shows, each entry is appended as `key=value`
/// with `&` before all but the first, every byte of key and value but ASCII letters,
/// digits and `*-._` encoded (a space as `+`, the others as `%` and two upper case
/// hexadecimal digits); string keys and values never give an error.
#[verifier::external_body]
fn urlencode(m: &IndexMap<String, String>) -> (r: Result<String, String>)
    ensures
        match r {
            Ok(t) => urlencoded(string_entries(*m)) == Ok::<Seq<char>, Seq<char>>(t@),
            Err(e) => urlencoded(string_entries(*m)) == Err::<Seq<char>, Seq<char>>(e@),
        },
{
    serde_urlencoded::to_string(m).map_err(|e| e.to_string())
}

/// The query options of a subscription.
pub open spec fn topic_query(namespace: Seq<char>, topic: DittoTopic) -> Seq<(Seq<char>, Seq<char>)> {
    match topic {
        DittoTopic::TwinEvents { extra_fields, filter } => {
            let with_namespace = inserted(Seq::empty(), "namespace"@, namespace);
            let with_fields = if extra_fields@.len() > 0 {
                inserted(with_namespace, "extraFields"@, joined(texts(extra_fields@), ','))
            } else {
                with_namespace
            };
            match filter {
                Some(f) => inserted(with_fields, "filter"@, f@),
                None => with_fields,
            }
        },
    }
}

/// The Ditto topic of a subscription, with its options as the query.
pub open spec fn topic_text(namespace: Seq<char>, topic: DittoTopic) -> Result<Seq<char>, ReconcileErrorModel> {
    match urlencoded(topic_query(namespace, topic)) {
        Ok(q) => Ok("_/_/things/twin/events?"@ + q),
        Err(e) => Err(
            ReconcileErrorModel::Permanent("Unable to encode outbound configuration options: "@ + e),
        ),
    }
}

/// The topics of a list of subscriptions, or the error of the first that fails.
pub open spec fn topics_of(namespace: Seq<char>, topics: Seq<DittoTopic>) -> Result<Seq<Seq<char>>, ReconcileErrorModel>
    decreases topics.len(),
{
    if topics.len() == 0 {
        Ok(Seq::empty())
    } else {
        match topics_of(namespace, topics.drop_last()) {
            Err(e) => Err(e),
            Ok(done) => match topic_text(namespace, topics.last()) {
                Err(e) => Err(e),
                Ok(t) => Ok(done.push(t)),
            },
        }
    }
}

/// A failing subscription fails the list from there on.
proof fn lemma_topics_error_from(namespace: Seq<char>, subs: Seq<DittoTopic>, i: int, j: int)
    requires
        0 <= i < j <= subs.len(),
        topics_of(namespace, subs.take(i)) is Ok,
        topic_text(namespace, subs[i]) is Err,
    ensures
        topics_of(namespace, subs.take(j)) == Err::<Seq<Seq<char>>, ReconcileErrorModel>(
            topic_text(namespace, subs[i])->Err_0,
        ),
    decreases j - i,
{
    if j == i + 1 {
        assert(subs.take(j).drop_last() =~= subs.take(i));
    } else {
        lemma_topics_error_from(namespace, subs, i, j - 1);
        assert(subs.take(j).drop_last() =~= subs.take(j - 1));
    }
}

/// A failing subscription fails the whole list.
proof fn lemma_topics_error(namespace: Seq<char>, subs: Seq<DittoTopic>, i: int)
    requires
        0 <= i < subs.len(),
        topics_of(namespace, subs.take(i)) is Ok,
        topic_text(namespace, subs[i]) is Err,
    ensures
        topics_of(namespace, subs) == Err::<Seq<Seq<char>>, ReconcileErrorModel>(
            topic_text(namespace, subs[i])->Err_0,
        ),
{
    lemma_topics_error_from(namespace, subs, i, subs.len() as int);
    assert(subs.take(subs.len() as int) =~= subs);
}

/// The authorization context of the connections.
pub open spec fn drogue_context() -> Seq<Seq<char>> {
    seq!["pre-authenticated:drogue-cloud"@]
}

/// The target of a connection for an export target: the Kafka topic must not hold a
/// slash; the address adds the thing's id to the topic.
pub open spec fn outbound_target(namespace: Seq<char>, target: ExporterTarget) -> Result<TargetModel, ReconcileErrorModel> {
    if target.topic@.contains('/') {
        Err(
            ReconcileErrorModel::Permanent(
                "Ditto exporter Kafka topic must not contain slashes. Is: "@ + target.topic@,
            ),
        )
    } else {
        match topics_of(namespace, target.subscriptions@) {
            Err(e) => Err(e),
            Ok(topics) => Ok(
                TargetModel {
                    address: target.topic@ + "/{{ thing:id }}"@,
                    topics,
                    authorization_context: drogue_context(),
                    header_mapping: outbound_headers(target.mode),
                    payload_mapping: outbound_mappers(target.mode),
                },
            ),
        }
    }
}

/// The view of a result with a target.
pub open spec fn target_result(r: Result<Target, ReconcileError>) -> Result<TargetModel, ReconcileErrorModel> {
    match r {
        Ok(t) => Ok(t@),
        Err(e) => Err(e@),
    }
}

/// The topic of one subscription.
fn subscription_topic(namespace: &str, topic: &DittoTopic) -> (r: Result<String, ReconcileError>)
    ensures
        match r {
            Ok(t) => topic_text(namespace@, *topic) == Ok::<Seq<char>, ReconcileErrorModel>(t@),
            Err(e) => topic_text(namespace@, *topic) == Err::<Seq<char>, ReconcileErrorModel>(e@),
        },
{
    match topic {
        DittoTopic::TwinEvents { extra_fields, filter } => {
            let mut query = string_map_new();
            string_map_insert(&mut query, "namespace".to_owned(), namespace.to_owned());
            if extra_fields.len() > 0 {
                string_map_insert(&mut query, "extraFields".to_owned(), join_strings(extra_fields, ','));
            }
            match filter {
                Some(f) => string_map_insert(&mut query, "filter".to_owned(), f.clone()),
                None => {},
            }
            match urlencode(&query) {
                Ok(q) => Ok(concat("_/_/things/twin/events?", q.as_str())),
                Err(e) => Err(
                    ReconcileError::Permanent(
                        concat("Unable to encode outbound configuration options: ", e.as_str()),
                    ),
                ),
            }
        },
    }
}

/// The target of a connection for an export target of the application.
pub fn outbound_connection_target(app: &Application, exporter: ExporterTarget) -> (r: Result<
    Target,
    ReconcileError,
>)
    ensures
        target_result(r) == outbound_target(app.name@, exporter),
{
    let topic_chars = chars_of(exporter.topic.as_str());
    match find_char(&topic_chars, '/') {
        Some(_) => {
            return Err(
                ReconcileError::Permanent(
                    concat(
                        "Ditto exporter Kafka topic must not contain slashes. Is: ",
                        exporter.topic.as_str(),
                    ),
                ),
            );
        },
        None => {},
    }
    let namespace = app.name.as_str();
    let ghost subs = exporter.subscriptions@;
    let mut topics: Vec<String> = Vec::new();
    let mut i: usize = 0;
    assert(subs.take(0) =~= Seq::<DittoTopic>::empty());
    assert(texts(topics@) =~= Seq::<Seq<char>>::empty());
    while i < exporter.subscriptions.len()
        invariant
            subs == exporter.subscriptions@,
            namespace@ == app.name@,
            !exporter.topic@.contains('/'),
            i <= subs.len(),
            topics_of(namespace@, subs.take(i as int)) == Ok::<
                Seq<Seq<char>>,
                ReconcileErrorModel,
            >(texts(topics@)),
        decreases subs.len() - i,
    {
        assert(subs.take(i + 1).drop_last() =~= subs.take(i as int));
        assert(subs.take(i + 1).last() == subs[i as int]);
        let ghost before = topics@;
        match subscription_topic(namespace, &exporter.subscriptions[i]) {
            Ok(t) => {
                topics.push(t);
                assert(texts(topics@) =~= texts(before).push(t@));
            },
            Err(e) => {
                proof {
                    lemma_topics_error(namespace@, subs, i as int);
                }
                return Err(e);
            },
        }
        i += 1;
    }
    assert(subs.take(i as int) =~= subs);
    let (payload_mapping, header_mapping) = mapping_definitions_outbound(&exporter.mode);
    let mut address = exporter.topic;
    crate::text::append_str(&mut address, "/{{ thing:id }}");
    let context = vec!["pre-authenticated:drogue-cloud".to_owned()];
    assert(texts(context@) =~= drogue_context());
    Ok(
        Target {
            address,
            topics,
            authorization_context: context,
            header_mapping,
            payload_mapping,
        },
    )
}


/// The targets for a list of export targets, or the error of the first that fails.
pub open spec fn targets_of(namespace: Seq<char>, targets: Seq<ExporterTarget>) -> Result<Seq<TargetModel>, ReconcileErrorModel>
    decreases targets.len(),
{
    if targets.len() == 0 {
        Ok(Seq::empty())
    } else {
        match targets_of(namespace, targets.drop_last()) {
            Err(e) => Err(e),
            Ok(done) => match outbound_target(namespace, targets.last()) {
                Err(e) => Err(e),
                Ok(t) => Ok(done.push(t)),
            },
        }
    }
}

/// The parts of a connection that its Kafka settings give, on top of `base`.
pub open spec fn with_kafka(base: ConnectionModel, kafka: KafkaClientConfig, group_id: Seq<char>) -> Result<
    ConnectionModel,
    ReconcileErrorModel,
> {
    match kafka_uri(kafka) {
        None => Err(bootstrap_url_error()),
        Some(uri) => Ok(
            ConnectionModel {
                uri,
                validate_certificates: validates_certificates(kafka.properties@),
                ca: property(kafka.properties@, "ditto.ca"@),
                specific_config: specific_config_of(kafka, group_id),
                ..base
            },
        ),
    }
}

/// The outbound connection of an application: its targets (the first failing one fails
/// it), then its Kafka settings.
pub open spec fn outbound_connection(app_name: Seq<char>, exporter: Exporter) -> Result<ConnectionModel, ReconcileErrorModel> {
    let id = connection_id_of(ConnectionType::Outbound, app_name);
    match targets_of(app_name, exporter.targets@) {
        Err(e) => Err(e),
        Ok(targets) => with_kafka(
            ConnectionModel {
                id,
                connection_type: "kafka"@,
                connection_status: ConnectionStatus::Open,
                client_count: None,
                failover_enabled: true,
                uri: Seq::empty(),
                validate_certificates: true,
                ca: None,
                specific_config: Seq::empty(),
                sources: Seq::empty(),
                targets,
                mapping_definitions: Seq::empty(),
            },
            exporter.kafka,
            id,
        ),
    }
}

/// The view of a result with a connection.
pub open spec fn connection_result(r: Result<Connection, ReconcileError>) -> Result<ConnectionModel, ReconcileErrorModel> {
    match r {
        Ok(c) => Ok(c@),
        Err(e) => Err(e@),
    }
}

/// A failing export target fails the list from there on.
proof fn lemma_targets_error_from(namespace: Seq<char>, targets: Seq<ExporterTarget>, i: int, j: int)
    requires
        0 <= i < j <= targets.len(),
        targets_of(namespace, targets.take(i)) is Ok,
        outbound_target(namespace, targets[i]) is Err,
    ensures
        targets_of(namespace, targets.take(j)) == Err::<Seq<TargetModel>, ReconcileErrorModel>(
            outbound_target(namespace, targets[i])->Err_0,
        ),
    decreases j - i,
{
    if j == i + 1 {
        assert(targets.take(j).drop_last() =~= targets.take(i));
    } else {
        lemma_targets_error_from(namespace, targets, i, j - 1);
        assert(targets.take(j).drop_last() =~= targets.take(j - 1));
    }
}

/// The outbound connection of an application, exporting twin events to Kafka.
pub fn outbound_connection_definition(app: &Application, exporter: Exporter) -> (r: Result<
    Connection,
    ReconcileError,
>)
    requires
        exporter.kafka.wf(),
    ensures
        connection_result(r) == outbound_connection(app.name@, exporter),
{
    let ghost all = exporter.targets@;
    let ghost spec_exporter = exporter;
    let Exporter { kafka, targets: mut pending } = exporter;
    let mut targets: Vec<Target> = Vec::new();
    let ghost mut done: int = 0;
    assert(all.take(0) =~= Seq::<ExporterTarget>::empty());
    assert(targets@.map_values(|t: Target| t@) =~= Seq::<TargetModel>::empty());
    assert(pending@ =~= all.skip(0));
    while pending.len() > 0
        invariant
            spec_exporter == exporter,
            all == spec_exporter.targets@,
            0 <= done <= all.len(),
            pending@ == all.skip(done),
            targets_of(app.name@, all.take(done)) == Ok::<Seq<TargetModel>, ReconcileErrorModel>(
                targets@.map_values(|t: Target| t@),
            ),
        decreases pending@.len(),
    {
        let next = pending.remove(0);
        assert(next == all[done]);
        assert(all.take(done + 1).drop_last() =~= all.take(done));
        assert(all.take(done + 1).last() == all[done]);
        let ghost before = targets@;
        match outbound_connection_target(app, next) {
            Ok(t) => {
                targets.push(t);
                assert(targets@.map_values(|t: Target| t@) =~= before.map_values(|t: Target| t@).push(t@));
            },
            Err(e) => {
                proof {
                    lemma_targets_error_from(app.name@, all, done, all.len() as int);
                    assert(all.take(all.len() as int) =~= all);
                }
                return Err(e);
            },
        }
        proof {
            done = done + 1;
            assert(pending@ =~= all.skip(done));
        }
    }
    assert(all.take(done) =~= all);
    let id = ConnectionType::Outbound.connection_id(app);
    let info = match connection_info(&kafka, ConnectionType::Outbound.connection_id(app)) {
        Ok(info) => info,
        Err(e) => {
            return Err(e);
        },
    };
    let connection = Connection {
        id,
        connection_type: "kafka".to_owned(),
        connection_status: ConnectionStatus::Open,
        client_count: None,
        failover_enabled: true,
        uri: info.uri,
        validate_certificates: info.validate_certificates,
        ca: info.ca,
        specific_config: info.specific_config,
        sources: Vec::new(),
        targets,
        mapping_definitions: Vec::new(),
    };
    assert(connection@.sources =~= Seq::<SourceModel>::empty());
    assert(connection@.mapping_definitions =~= Seq::<(Seq<char>, MappingDefinitionModel)>::empty());
    Ok(connection)
}

/// The header mapping of the inbound connection: application, device and content type
/// from the event's headers.
pub open spec fn inbound_headers() -> Seq<(Seq<char>, Seq<char>)> {
    inserted_all(
        Seq::empty(),
        seq![
            ("application"@, "{{ header:ce_application }}"@),
            ("device"@, "{{ header:ce_device }}"@),
            ("content-type"@, "{{ header:content-type }}"@),
        ],
    )
}

/// The header mapping of the inbound connection.
pub fn default_header_mapping() -> (r: IndexMap<String, String>)
    ensures
        string_entries(r) == inbound_headers(),
{
    let mut map = string_map_new();
    let pairs = vec![
        ("application", "{{ header:ce_application }}"),
        ("device", "{{ header:ce_device }}"),
        ("content-type", "{{ header:content-type }}"),
    ];
    insert_pairs(&mut map, &pairs);
    assert(str_pairs(pairs@) =~= seq![
        ("application"@, "{{ header:ce_application }}"@),
        ("device"@, "{{ header:ce_device }}"@),
        ("content-type"@, "{{ header:content-type }}"@),
    ]);
    map
}

/// The enforcement of the inbound connection: the application and device of a message
/// must be those of the thing, within the application's namespace.
pub open spec fn enforcement_of(app_name: Seq<char>) -> EnforcementModel {
    EnforcementModel {
        input: "{{ header:ce_application }}:{{ header:ce_device }}"@,
        filters: seq![app_name + ":{{ thing:name }}"@],
    }
}

/// The enforcement of the inbound connection of an application.
pub fn default_enforcement(app: &Application) -> (r: Enforcement)
    ensures
        r@ == enforcement_of(app.name@),
{
    let filter = concat(app.name.as_str(), ":{{ thing:name }}");
    let filters = vec![filter];
    let r = Enforcement {
        input: "{{ header:ce_application }}:{{ header:ce_device }}".to_owned(),
        filters,
    };
    assert(r@.filters =~= enforcement_of(app.name@).filters);
    r
}

/// The name of the payload mapping of the inbound connection.
pub open spec fn events_mapping() -> Seq<char> {
    "drogue-cloud-events-mapping"@
}

/// The payload mapping of the inbound connection: the JavaScript engine with the scripts
/// that map incoming and outgoing messages.
pub open spec fn inbound_mappings(incoming: Seq<char>, outgoing: Seq<char>) -> Seq<(Seq<char>, MappingDefinitionModel)> {
    seq![
        (
            events_mapping(),
            MappingDefinitionModel {
                mapping_engine: "JavaScript"@,
                options: inserted_all(
                    Seq::empty(),
                    seq![
                        ("incomingScript"@, incoming),
                        ("outgoingScript"@, outgoing),
                        ("loadBytebufferJS"@, "false"@),
                        ("loadLongJS"@, "false"@),
                    ],
                ),
            },
        ),
    ]
}

/// The payload mapping of the inbound connection, with these scripts.
pub fn mapping_definitions_inbound(incoming_script: &str, outgoing_script: &str) -> (r: Vec<
    (String, MappingDefinition),
>)
    ensures
        r@.map_values(|d: (String, MappingDefinition)| (d.0@, d.1@)) == inbound_mappings(
            incoming_script@,
            outgoing_script@,
        ),
{
    let mut options = string_map_new();
    let pairs = vec![
        ("incomingScript", incoming_script),
        ("outgoingScript", outgoing_script),
        ("loadBytebufferJS", "false"),
        ("loadLongJS", "false"),
    ];
    insert_pairs(&mut options, &pairs);
    assert(str_pairs(pairs@) =~= seq![
        ("incomingScript"@, incoming_script@),
        ("outgoingScript"@, outgoing_script@),
        ("loadBytebufferJS"@, "false"@),
        ("loadLongJS"@, "false"@),
    ]);
    let definition = MappingDefinition { mapping_engine: "JavaScript".to_owned(), options };
    let r = vec![("drogue-cloud-events-mapping".to_owned(), definition)];
    assert(r@.map_values(|d: (String, MappingDefinition)| (d.0@, d.1@)) =~= inbound_mappings(
        incoming_script@,
        outgoing_script@,
    ));
    r
}

/// The inbound connection of an application: it reads the application's events from
/// `topic`, with the Kafka settings of that topic.
pub open spec fn inbound_connection(
    app_name: Seq<char>,
    ingress: Option<Ingress>,
    topic: Seq<char>,
    kafka: KafkaClientConfig,
    incoming: Seq<char>,
    outgoing: Seq<char>,
) -> Result<ConnectionModel, ReconcileErrorModel> {
    let id = connection_id_of(ConnectionType::Inbound, app_name);
    with_kafka(
        ConnectionModel {
            id,
            connection_type: "kafka"@,
            connection_status: ConnectionStatus::Open,
            client_count: match ingress {
                Some(i) => i.clients,
                None => None,
            },
            failover_enabled: true,
            uri: Seq::empty(),
            validate_certificates: true,
            ca: None,
            specific_config: Seq::empty(),
            sources: seq![
                SourceModel {
                    addresses: seq![topic],
                    consumer_count: match ingress {
                        Some(i) => match i.consumers {
                            Some(c) => c,
                            None => 1,
                        },
                        None => 1,
                    },
                    qos: Some(QoS::AtLeastOnce),
                    authorization_context: drogue_context(),
                    enforcement: enforcement_of(app_name),
                    header_mapping: inbound_headers(),
                    payload_mapping: seq![events_mapping()],
                },
            ],
            targets: Seq::empty(),
            mapping_definitions: inbound_mappings(incoming, outgoing),
        },
        kafka,
        id,
    )
}

/// A list of export targets gives targets exactly where each target does, one for each, in
/// order.
proof fn lemma_targets_of_each(namespace: Seq<char>, targets: Seq<ExporterTarget>)
    ensures
        targets_of(namespace, targets) is Ok <==> forall|i: int|
            0 <= i < targets.len() ==> outbound_target(namespace, #[trigger] targets[i]) is Ok,
        targets_of(namespace, targets) matches Ok(ts) ==> ts.len() == targets.len() && forall|i: int|
            0 <= i < targets.len() ==> outbound_target(namespace, #[trigger] targets[i]) == Ok::<
                TargetModel,
                ReconcileErrorModel,
            >(ts[i]),
    decreases targets.len(),
{
    if targets.len() > 0 {
        let prev = targets.drop_last();
        lemma_targets_of_each(namespace, prev);
        assert forall|i: int| 0 <= i < prev.len() implies prev[i] == targets[i] by {}
        assert(targets.last() == targets[targets.len() - 1]);
        if forall|i: int| 0 <= i < targets.len() ==> outbound_target(namespace, #[trigger] targets[i]) is Ok {
            assert forall|i: int| 0 <= i < prev.len() implies outbound_target(namespace, #[trigger] prev[i]) is Ok by {
                assert(prev[i] == targets[i]);
                assert(outbound_target(namespace, targets[i]) is Ok);
            }
        }
        if targets_of(namespace, targets) is Ok {
            assert forall|i: int| 0 <= i < targets.len() implies outbound_target(namespace, #[trigger] targets[i]) is Ok by {
                if i < prev.len() {
                    assert(prev[i] == targets[i]);
                    assert(outbound_target(namespace, prev[i]) is Ok);
                }
            }
        }
    }
}

/// What the connections of an application hold. The inbound one (id `kafka-drogue-<app>`)
/// reads `topic` with one source, as many consumers as the ingress asks for (one without),
/// and exists exactly where the Kafka URI can be built. The outbound one (id
/// `drogue-out-<app>`) has no source and one target per export target, in order, each
/// addressed to its Kafka topic followed by `/{{ thing:id }}`; an export topic holding a
/// slash fails it. Both are Kafka connections with the URI, the certificate validation
/// and the specific configuration (with their own id as consumer group) of their Kafka
/// settings.
pub proof fn law_connections(
    app_name: Seq<char>,
    ingress: Option<Ingress>,
    topic: Seq<char>,
    kafka: KafkaClientConfig,
    incoming: Seq<char>,
    outgoing: Seq<char>,
    exporter: Exporter,
)
    ensures
        inbound_connection(app_name, ingress, topic, kafka, incoming, outgoing) is Ok <==> kafka_uri(kafka) is Some,
        inbound_connection(app_name, ingress, topic, kafka, incoming, outgoing) matches Ok(c) ==> {
            &&& c.id == "kafka-drogue-"@ + app_name
            &&& c.connection_type == "kafka"@
            &&& Some(c.uri) == kafka_uri(kafka)
            &&& c.validate_certificates == validates_certificates(kafka.properties@)
            &&& c.specific_config == specific_config_of(kafka, c.id)
            &&& c.targets.len() == 0
            &&& c.sources.len() == 1
            &&& c.sources[0].addresses == seq![topic]
            &&& c.sources[0].consumer_count == (match ingress {
                Some(Ingress { consumers: Some(n), .. }) => n,
                _ => 1u32,
            })
            &&& c.client_count == (match ingress {
                Some(i) => i.clients,
                None => None,
            })
        },
        (exists|i: int|
            0 <= i < exporter.targets@.len() && (#[trigger] exporter.targets@[i]).topic@.contains('/'))
            ==> outbound_connection(app_name, exporter) is Err,
        outbound_connection(app_name, exporter) matches Ok(c) ==> {
            &&& c.id == "drogue-out-"@ + app_name
            &&& c.connection_type == "kafka"@
            &&& Some(c.uri) == kafka_uri(exporter.kafka)
            &&& c.validate_certificates == validates_certificates(exporter.kafka.properties@)
            &&& c.specific_config == specific_config_of(exporter.kafka, c.id)
            &&& c.sources.len() == 0
            &&& c.targets.len() == exporter.targets@.len()
            &&& forall|i: int|
                0 <= i < exporter.targets@.len() ==> (#[trigger] c.targets[i]).address == exporter.targets@[i].topic@
                    + "/{{ thing:id }}"@
        },
{
    lemma_targets_of_each(app_name, exporter.targets@);
}

/// The inbound connection of an application, reading its events from `topic` with the
/// Kafka settings `kafka`; the payload mapping uses the given scripts.
pub fn inbound_connection_definition(
    app: &Application,
    ingress: Option<&Ingress>,
    topic: String,
    kafka: &KafkaClientConfig,
    incoming_script: &str,
    outgoing_script: &str,
) -> (r: Result<Connection, ReconcileError>)
    requires
        kafka.wf(),
    ensures
        connection_result(r) == inbound_connection(
            app.name@,
            match ingress {
                Some(i) => Some(*i),
                None => None,
            },
            topic@,
            *kafka,
            incoming_script@,
            outgoing_script@,
        ),
{
    let id = ConnectionType::Inbound.connection_id(app);
    let info = match connection_info(kafka, ConnectionType::Inbound.connection_id(app)) {
        Ok(info) => info,
        Err(e) => {
            return Err(e);
        },
    };
    let client_count = match ingress {
        Some(i) => i.clients,
        None => None,
    };
    let consumer_count = match ingress {
        Some(i) => match i.consumers {
            Some(c) => c,
            None => 1,
        },
        None => 1,
    };
    let source = Source {
        addresses: vec![topic],
        consumer_count,
        qos: Some(QoS::AtLeastOnce),
        authorization_context: vec!["pre-authenticated:drogue-cloud".to_owned()],
        enforcement: default_enforcement(app),
        header_mapping: default_header_mapping(),
        payload_mapping: vec!["drogue-cloud-events-mapping".to_owned()],
    };
    let connection = Connection {
        id,
        connection_type: "kafka".to_owned(),
        connection_status: ConnectionStatus::Open,
        client_count,
        failover_enabled: true,
        uri: info.uri,
        validate_certificates: info.validate_certificates,
        ca: info.ca,
        specific_config: info.specific_config,
        sources: vec![source],
        targets: Vec::new(),
        mapping_definitions: mapping_definitions_inbound(incoming_script, outgoing_script),
    };
    assert(connection@.sources[0].addresses =~= seq![topic@]);
    assert(connection@.sources[0].authorization_context =~= drogue_context());
    assert(connection@.sources[0].payload_mapping =~= seq![events_mapping()]);
    assert(connection@.sources =~= inbound_connection(
        app.name@,
        match ingress {
            Some(i) => Some(*i),
            None => None,
        },
        topic@,
        *kafka,
        incoming_script@,
        outgoing_script@,
    )->Ok_0.sources);
    assert(connection@.targets =~= Seq::<TargetModel>::empty());
    Ok(connection)
}

} // verus!
