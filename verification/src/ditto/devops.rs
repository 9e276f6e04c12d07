//! Ditto DevOps commands: the connections the operator configures, and the responses it
//! evaluates.
use crate::ordered::string_entries;
use indexmap::IndexMap;
use vstd::prelude::*;

verus! {

/// A DevOps command, sent to an actor of Ditto.
#[derive(Debug)]
pub struct DevopsCommand {
    pub target_actor_selection: String,
    pub headers: Headers,
    pub piggyback_command: PiggybackCommand,
}

/// The response to a connectivity command: entries by the responding instance, in order.
#[derive(Debug, PartialEq, Eq)]
pub struct ConnectivityResponse {
    pub connectivity: Vec<(String, ConnectivityResponseEntry)>,
}

/// One entry of a connectivity response.
#[derive(Clone, Debug, PartialEq, Eq)]
pub struct ConnectivityResponseEntry {
    pub status: u32,
    pub error: Option<String>,
    pub message: Option<String>,
    pub description: Option<String>,
}

/// The response to a namespace command: entries by the responding instance, in order.
#[derive(Debug, PartialEq, Eq)]
pub struct NamespaceResponse {
    pub entries: Vec<(String, NamespaceResponseEntry)>,
}

/// One entry of a namespace response.
#[derive(Clone, Debug, PartialEq, Eq)]
pub struct NamespaceResponseEntry {
    /// The type of the response.
    pub kind: String,
    pub status: u32,
    pub namespace: String,
    pub resource_type: String,
    pub successful: Option<bool>,
}

/// The headers of a DevOps command.
#[derive(Clone, Copy, Debug, PartialEq, Eq)]
pub struct Headers {
    pub aggregate: bool,
    pub is_group_topic: bool,
}

impl Default for Headers {
    /// Neither aggregated nor for a group topic.
    fn default() -> (r: Headers)
        ensures
            !r.aggregate,
            !r.is_group_topic,
    {
        Headers { aggregate: false, is_group_topic: false }
    }
}

/// Whether a flag is unset (such a flag is left out when written).
pub fn is_false(v: &bool) -> (r: bool)
    ensures
        r == !*v,
{
    !*v
}

/// The command that a DevOps command carries.
#[derive(Debug)]
pub enum PiggybackCommand {
    CreateConnection { connection: Connection },
    ModifyConnection { connection: Connection },
    DeleteConnection { connection_id: String },
    BlockNamespace { namespace: String },
    Shutdown { reason: ShutdownReason },
    PurgeNamespace { namespace: String },
    UnblockNamespace { namespace: String },
}

/// Why an instance shuts down.
#[derive(Clone, Debug, PartialEq, Eq)]
pub enum ShutdownReason {
    PurgeNamespace { namespace: String },
}

/// A connection of Ditto.
#[derive(Debug)]
pub struct Connection {
    pub id: String,
    pub connection_type: String,
    pub connection_status: ConnectionStatus,
    pub client_count: Option<u32>,
    pub failover_enabled: bool,
    pub uri: String,
    pub validate_certificates: bool,
    pub ca: Option<String>,
    pub specific_config: IndexMap<String, String>,
    pub sources: Vec<Source>,
    pub targets: Vec<Target>,
    /// The payload mappings, by name, in order.
    pub mapping_definitions: Vec<(String, MappingDefinition)>,
}

/// Whether certificates are validated where a connection does not say: they are.
pub fn default_validate_certificates() -> (r: bool)
    ensures
        r,
{
    true
}

/// The status of a connection.
#[derive(Clone, Copy, Debug, PartialEq, Eq)]
pub enum ConnectionStatus {
    Open,
}

impl Default for ConnectionStatus {
    /// A connection is open.
    fn default() -> (r: ConnectionStatus)
        ensures
            r == ConnectionStatus::Open,
    {
        ConnectionStatus::Open
    }
}

/// The quality of service of a source.
#[derive(Clone, Copy, Debug, PartialEq, Eq)]
pub enum QoS {
    AtMostOnce,
    AtLeastOnce,
}

impl QoS {
    /// The number that stands for the quality of service.
    pub fn level(&self) -> (r: u8)
        ensures
            r == match *self {
                QoS::AtMostOnce => 0u8,
                QoS::AtLeastOnce => 1u8,
            },
    {
        match self {
            QoS::AtMostOnce => 0,
            QoS::AtLeastOnce => 1,
        }
    }
}

/// A source of a connection: where Ditto consumes from.
#[derive(Debug)]
pub struct Source {
    pub addresses: Vec<String>,
    pub consumer_count: u32,
    pub qos: Option<QoS>,
    pub authorization_context: Vec<String>,
    pub enforcement: Enforcement,
    pub header_mapping: IndexMap<String, String>,
    pub payload_mapping: Vec<String>,
}

/// A target of a connection: where Ditto publishes to.
#[derive(Debug)]
pub struct Target {
    pub address: String,
    pub topics: Vec<String>,
    pub authorization_context: Vec<String>,
    pub header_mapping: IndexMap<String, String>,
    pub payload_mapping: Vec<String>,
}

/// A payload mapping: its engine and options (each option a string).
#[derive(Debug)]
pub struct MappingDefinition {
    pub mapping_engine: String,
    pub options: IndexMap<String, String>,
}

/// Which messages a source accepts: the input to match and the filters it must match.
#[derive(Clone, Debug, PartialEq, Eq)]
pub struct Enforcement {
    pub input: String,
    pub filters: Vec<String>,
}


/// The views of a list of strings.
pub open spec fn texts(v: Seq<String>) -> Seq<Seq<char>> {
    v.map_values(|s: String| s@)
}

/// The mathematical value of an [`Enforcement`].
pub struct EnforcementModel {
    pub input: Seq<char>,
    pub filters: Seq<Seq<char>>,
}

impl View for Enforcement {
    type V = EnforcementModel;

    open spec fn view(&self) -> EnforcementModel {
        EnforcementModel { input: self.input@, filters: texts(self.filters@) }
    }
}

/// The mathematical value of a [`Source`].
pub struct SourceModel {
    pub addresses: Seq<Seq<char>>,
    pub consumer_count: u32,
    pub qos: Option<QoS>,
    pub authorization_context: Seq<Seq<char>>,
    pub enforcement: EnforcementModel,
    pub header_mapping: Seq<(Seq<char>, Seq<char>)>,
    pub payload_mapping: Seq<Seq<char>>,
}

impl View for Source {
    type V = SourceModel;

    open spec fn view(&self) -> SourceModel {
        SourceModel {
            addresses: texts(self.addresses@),
            consumer_count: self.consumer_count,
            qos: self.qos,
            authorization_context: texts(self.authorization_context@),
            enforcement: self.enforcement@,
            header_mapping: string_entries(self.header_mapping),
            payload_mapping: texts(self.payload_mapping@),
        }
    }
}

/// The mathematical value of a [`Target`].
pub struct TargetModel {
    pub address: Seq<char>,
    pub topics: Seq<Seq<char>>,
    pub authorization_context: Seq<Seq<char>>,
    pub header_mapping: Seq<(Seq<char>, Seq<char>)>,
    pub payload_mapping: Seq<Seq<char>>,
}

impl View for Target {
    type V = TargetModel;

    open spec fn view(&self) -> TargetModel {
        TargetModel {
            address: self.address@,
            topics: texts(self.topics@),
            authorization_context: texts(self.authorization_context@),
            header_mapping: string_entries(self.header_mapping),
            payload_mapping: texts(self.payload_mapping@),
        }
    }
}

/// The mathematical value of a [`MappingDefinition`].
pub struct MappingDefinitionModel {
    pub mapping_engine: Seq<char>,
    pub options: Seq<(Seq<char>, Seq<char>)>,
}

impl View for MappingDefinition {
    type V = MappingDefinitionModel;

    open spec fn view(&self) -> MappingDefinitionModel {
        MappingDefinitionModel {
            mapping_engine: self.mapping_engine@,
            options: string_entries(self.options),
        }
    }
}

/// The mathematical value of a [`Connection`].
pub struct ConnectionModel {
    pub id: Seq<char>,
    pub connection_type: Seq<char>,
    pub connection_status: ConnectionStatus,
    pub client_count: Option<u32>,
    pub failover_enabled: bool,
    pub uri: Seq<char>,
    pub validate_certificates: bool,
    pub ca: Option<Seq<char>>,
    pub specific_config: Seq<(Seq<char>, Seq<char>)>,
    pub sources: Seq<SourceModel>,
    pub targets: Seq<TargetModel>,
    pub mapping_definitions: Seq<(Seq<char>, MappingDefinitionModel)>,
}

impl View for Connection {
    type V = ConnectionModel;

    open spec fn view(&self) -> ConnectionModel {
        ConnectionModel {
            id: self.id@,
            connection_type: self.connection_type@,
            connection_status: self.connection_status,
            client_count: self.client_count,
            failover_enabled: self.failover_enabled,
            uri: self.uri@,
            validate_certificates: self.validate_certificates,
            ca: match self.ca {
                Some(c) => Some(c@),
                None => None,
            },
            specific_config: string_entries(self.specific_config),
            sources: self.sources@.map_values(|s: Source| s@),
            targets: self.targets@.map_values(|t: Target| t@),
            mapping_definitions: self.mapping_definitions@.map_values(
                |d: (String, MappingDefinition)| (d.0@, d.1@),
            ),
        }
    }
}

} // verus!
