//! Settings of the endpoints: the command server, the Kafka command source, client
//! certificates, and whether an application's Kafka topic is ready.
use crate::command::Command;
use crate::kafka::KafkaConfig;
use crate::registry::{Application, Condition};
use crate::text::str_is;
use vstd::prelude::*;

verus! {

/// The certificates a client presented, each DER encoded, in order.
#[derive(Clone, Debug, PartialEq, Eq)]
pub struct ClientCertificateChain(pub Vec<Vec<u8>>);

/// The settings of the command server.
#[derive(Clone, Debug, PartialEq, Eq)]
pub struct CommandServerConfig {
    pub bind_addr: String,
    pub max_payload_size: usize,
    pub max_json_size: usize,
}

/// The address the command server binds to where none is set.
pub fn bind_addr() -> (r: String)
    ensures
        r@ == "0.0.0.0:8081"@,
{
    "0.0.0.0:8081".to_owned()
}

/// The settings of the Kafka source of commands.
#[derive(Clone, Debug, PartialEq, Eq)]
pub struct KafkaCommandSourceConfig {
    pub kafka: KafkaConfig,
    pub topic: String,
    pub consumer_group: String,
}

impl KafkaCommandSourceConfig {
    /// The event stream that the command source reads: its Kafka servers and custom
    /// properties, its topic, in its consumer group.
    pub fn stream_config(self) -> (r: crate::stream::EventStreamConfig)
        requires
            self.kafka.wf(),
        ensures
            r.kafka.wf(),
            r.kafka.bootstrap_servers == self.kafka.bootstrap_servers,
            r.kafka.properties == self.kafka.custom,
            r.topic == self.topic,
            r.consumer_group == Some(self.consumer_group),
    {
        crate::stream::EventStreamConfig {
            kafka: crate::kafka::KafkaClientConfig {
                bootstrap_servers: self.kafka.bootstrap_servers,
                properties: self.kafka.custom,
            },
            topic: self.topic,
            consumer_group: Some(self.consumer_group),
        }
    }
}

/// Delivers commands to the devices they are meant for.
pub trait CommandDispatcher {
    fn send(&self, msg: Command);
}

/// The status of the first condition of this type, if any.
pub open spec fn condition_status(conditions: Seq<Condition>, kind: Seq<char>) -> Option<Seq<char>>
    decreases conditions.len(),
{
    if conditions.len() == 0 {
        None
    } else if conditions[0].condition_type@ == kind {
        Some(conditions[0].status@)
    } else {
        condition_status(conditions.drop_first(), kind)
    }
}

/// Whether an application's Kafka topic is ready: the first `KafkaReady` condition of its
/// status has the status `True`.
pub open spec fn kafka_ready(app: Application) -> bool {
    match app.conditions {
        Some(c) => condition_status(c@, "KafkaReady"@) == Some("True"@),
        None => false,
    }
}

/// Whether the Kafka topic of the application is ready.
pub fn is_ready(app: &Application) -> (r: bool)
    ensures
        r == kafka_ready(*app),
{
    match &app.conditions {
        None => false,
        Some(conditions) => {
            let mut i: usize = 0;
            assert(conditions@.skip(0) =~= conditions@);
            while i < conditions.len()
                invariant
                    app.conditions == Some(*conditions),
                    i <= conditions@.len(),
                    condition_status(conditions@, "KafkaReady"@) == condition_status(
                        conditions@.skip(i as int),
                        "KafkaReady"@,
                    ),
                decreases conditions@.len() - i,
            {
                assert(conditions@.skip(i as int).drop_first() =~= conditions@.skip(i + 1));
                assert(conditions@.skip(i as int)[0] == conditions@[i as int]);
                if str_is(conditions[i].condition_type.as_str(), "KafkaReady") {
                    return str_is(conditions[i].status.as_str(), "True");
                }
                i += 1;
            }
            false
        },
    }
}

} // verus!
