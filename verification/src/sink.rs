//! Sinks of events: where an event goes, what the Kafka sink checks before it sends one,
//! and what a delivery's result means for the publish.
use crate::downstream::{partition_key, partition_key_of};
use crate::endpoint::{is_ready, kafka_ready};
use crate::event::Event;
use crate::registry::Application;
use crate::sender::PublishOutcome;
use vstd::prelude::*;

verus! {

/// Where a sink publishes an event: to the events or to the commands of an application.
#[derive(Debug)]
pub enum SinkTarget<'a> {
    Events(&'a Application),
    Commands(&'a Application),
}

impl<'a> SinkTarget<'a> {
    /// The application of the target.
    pub open spec fn app(&self) -> Application {
        match self {
            SinkTarget::Events(app) => **app,
            SinkTarget::Commands(app) => **app,
        }
    }

    /// The application of the target.
    pub fn application(&self) -> (r: &'a Application)
        ensures
            *r == self.app(),
    {
        match self {
            SinkTarget::Events(app) => app,
            SinkTarget::Commands(app) => app,
        }
    }

    /// The kind of Kafka topic the target is: events or commands.
    pub open spec fn event_type(&self) -> KafkaEventType {
        match self {
            SinkTarget::Events(_) => KafkaEventType::Events,
            SinkTarget::Commands(_) => KafkaEventType::Commands,
        }
    }
}

/// The two kinds of Kafka topics of an application.
#[derive(Clone, Copy, Debug, PartialEq, Eq)]
pub enum KafkaEventType {
    Events,
    Commands,
}

/// Why the Kafka sink failed.
#[derive(Clone, Debug, PartialEq, Eq)]
pub enum KafkaSinkError {
    /// An error of the Kafka client, by its text.
    Kafka(String),
    /// The application's topic is not ready.
    NotReady,
    /// The producer closed before the record was delivered.
    Canceled,
}

/// A failure of a sink.
#[derive(Clone, Debug, PartialEq, Eq)]
pub enum SinkError<E> {
    /// The event could not be turned into a message.
    Event(String),
    /// The transport failed.
    Transport(E),
    /// The target could not be resolved.
    Target(String),
}

/// How handing a record to a Kafka producer ended.
#[derive(Clone, Debug, PartialEq, Eq)]
pub enum Delivery {
    /// Queued and delivered.
    Delivered,
    /// Queued, and the broker reported this error.
    Failed(String),
    /// Queued, and the producer closed before it was delivered.
    Canceled,
    /// Not queued: the producer's queue is full.
    QueueFull,
    /// Not queued, for this other error.
    NotQueued(String),
}

/// Before the Kafka sink sends an event: where the target's topic is not ready it fails
/// with `NotReady`; else it sends to the target's kind of topic, under the event's key.
pub fn kafka_send_plan(target: &SinkTarget, event: &Event) -> (r: Result<
    (KafkaEventType, String),
    SinkError<KafkaSinkError>,
>)
    ensures
        !kafka_ready(target.app()) ==> r == Err::<(KafkaEventType, String), _>(
            SinkError::Transport(KafkaSinkError::NotReady),
        ),
        kafka_ready(target.app()) ==> (r matches Ok((t, key)) && t == target.event_type()
            && key@ == partition_key_of(event@)),
{
    if !is_ready(target.application()) {
        return Err(SinkError::Transport(KafkaSinkError::NotReady));
    }
    let kind = match target {
        SinkTarget::Events(_) => KafkaEventType::Events,
        SinkTarget::Commands(_) => KafkaEventType::Commands,
    };
    Ok((kind, partition_key(event)))
}

/// What a delivery means for the publish: delivered is accepted, a full queue is reported
/// as such, every other end is a transport error (the client's error, or `Canceled`).
pub fn delivery_outcome(delivery: Delivery) -> (r: Result<PublishOutcome, SinkError<KafkaSinkError>>)
    ensures
        match delivery {
            Delivery::Delivered => r == Ok::<_, SinkError<KafkaSinkError>>(PublishOutcome::Accepted),
            Delivery::QueueFull => r == Ok::<_, SinkError<KafkaSinkError>>(PublishOutcome::QueueFull),
            Delivery::Canceled => r == Err::<PublishOutcome, _>(
                SinkError::Transport(KafkaSinkError::Canceled),
            ),
            Delivery::Failed(e) => r == Err::<PublishOutcome, _>(
                SinkError::Transport(KafkaSinkError::Kafka(e)),
            ),
            Delivery::NotQueued(e) => r == Err::<PublishOutcome, _>(
                SinkError::Transport(KafkaSinkError::Kafka(e)),
            ),
        },
{
    match delivery {
        Delivery::Delivered => Ok(PublishOutcome::Accepted),
        Delivery::QueueFull => Ok(PublishOutcome::QueueFull),
        Delivery::Canceled => Err(SinkError::Transport(KafkaSinkError::Canceled)),
        Delivery::Failed(e) => Err(SinkError::Transport(KafkaSinkError::Kafka(e))),
        Delivery::NotQueued(e) => Err(SinkError::Transport(KafkaSinkError::Kafka(e))),
    }
}

/// What the HTTP sink's answer means for the publish: a success status (200 to 299)
/// accepts the event, any other rejects it.
pub fn http_outcome(status: u16) -> (r: PublishOutcome)
    ensures
        r == if 200 <= status < 300 {
            PublishOutcome::Accepted
        } else {
            PublishOutcome::Rejected
        },
{
    if 200 <= status && status < 300 {
        PublishOutcome::Accepted
    } else {
        PublishOutcome::Rejected
    }
}

} // verus!
