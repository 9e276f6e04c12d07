use drogue_cloud_core::downstream::{downstream_event, new_downstream_event, partition_key, Publish};
use drogue_cloud_core::event::{Data, ExtensionValue};
use drogue_cloud_core::http_sink::{
    new_sink_event, publish_response, sink_event, Outcome, Publish as SinkPublish,
};
use drogue_cloud_core::json::JsonValue;
use drogue_cloud_core::registry::{Application, Condition};
use drogue_cloud_core::sender::{PublishOptions, PublishOutcome};
use drogue_cloud_core::sink::{
    delivery_outcome, http_outcome, kafka_send_plan, Delivery, KafkaEventType, KafkaSinkError, SinkError,
    SinkTarget,
};

fn publish(content_type: Option<&str>) -> Publish {
    Publish {
        app_id: "app 1".into(),
        device_id: "dev".into(),
        channel: "state".into(),
        options: PublishOptions {
            time: None,
            topic: None,
            data_schema: None,
            content_type: content_type.map(|s| s.to_string()),
            extensions: vec![("a".into(), "b".into())],
        },
    }
}

fn ext(name: &str, value: &str) -> (String, ExtensionValue) {
    (name.to_string(), ExtensionValue::String(value.to_string()))
}

#[test]
fn downstream_events() {
    let event = downstream_event(
        &publish(None),
        "inst",
        "id-7".into(),
        "2021-05-05T10:00:00Z".into(),
        b"[1]".to_vec(),
        Some(JsonValue::Array(vec![JsonValue::Number("1".into())])),
    );
    assert_eq!(event.id, "id-7");
    assert_eq!(event.ty, "io.drogue.event.v1");
    assert_eq!(event.source, "drogue://app%201/dev");
    assert_eq!(event.subject.as_deref(), Some("state"));
    assert_eq!(event.time.as_deref(), Some("2021-05-05T10:00:00Z"));
    assert_eq!(event.datacontenttype.as_deref(), Some("application/json"));
    assert_eq!(
        event.extensions,
        vec![
            ext("application", "app 1"),
            ext("device", "dev"),
            ext("partitionkey", "app%201/dev"),
            ext("instance", "inst"),
            ext("a", "b"),
        ]
    );
    assert_eq!(partition_key(&event), "app%201/dev");

    let event = downstream_event(&publish(Some("application/json")), "i", "x".into(), "t".into(), b"{".to_vec(), None);
    assert_eq!(event.datacontenttype.as_deref(), Some("application/json"));
    assert_eq!(event.data, Some(Data::Binary(b"{".to_vec())));

    let event = downstream_event(&publish(None), "i", "x".into(), "t".into(), b"{".to_vec(), None);
    assert_eq!(event.datacontenttype.as_deref(), Some("application/octet-stream"));
}

#[test]
fn fresh_downstream_events() {
    let event = new_downstream_event(&publish(Some("text/plain")), "inst", b"hi".to_vec(), None);
    assert_eq!(event.id.len(), 36);
    let again = downstream_event(
        &publish(Some("text/plain")),
        "inst",
        event.id.clone(),
        event.time.clone().unwrap(),
        b"hi".to_vec(),
        None,
    );
    assert_eq!(event, again);
    let other = new_downstream_event(&publish(Some("text/plain")), "inst", b"hi".to_vec(), None);
    assert_ne!(event.id, other.id);
}

#[test]
fn keys_without_partition_key() {
    let mut event = downstream_event(&publish(None), "i", "the-id".into(), "t".into(), vec![], None);
    event.extensions.retain(|(k, _)| k != "partitionkey");
    assert_eq!(partition_key(&event), "the-id");
    event.extensions.push(("partitionkey".into(), ExtensionValue::Boolean(true)));
    assert_eq!(partition_key(&event), "the-id");
}

#[test]
fn sink_events() {
    let p = SinkPublish { channel: "ch".into() };
    let event = sink_event(&p, "1".into(), b"x".to_vec(), None);
    assert_eq!(event.source, "https://dentrassi.de/iot");
    assert_eq!(event.ty, "de.dentrassi.iot.message");
    assert_eq!(event.subject.as_deref(), Some("ch"));
    assert_eq!(event.datacontenttype.as_deref(), Some("application/octet-stream"));
    assert_eq!(event.data, Some(Data::Binary(b"x".to_vec())));
    let event = sink_event(&p, "1".into(), b"null".to_vec(), Some(JsonValue::Null));
    assert_eq!(event.datacontenttype.as_deref(), Some("text/json"));
    assert_eq!(event.data, Some(Data::Json(JsonValue::Null)));

    let fresh = new_sink_event(&p, b"x".to_vec(), None);
    assert_eq!(fresh.id.len(), 36);
    assert_eq!(fresh, sink_event(&p, fresh.id.clone(), b"x".to_vec(), None));

    assert_eq!(publish_response(204).outcome, Outcome::Accepted);
    assert_eq!(publish_response(299).outcome, Outcome::Accepted);
    assert_eq!(publish_response(300).outcome, Outcome::Rejected);
    assert_eq!(publish_response(404).outcome, Outcome::Rejected);
}

fn app(ready: Option<&str>) -> Application {
    Application {
        name: "app".into(),
        uid: "u".into(),
        conditions: ready.map(|s| {
            vec![
                Condition { condition_type: "Other".into(), status: "True".into() },
                Condition { condition_type: "KafkaReady".into(), status: s.into() },
            ]
        }),
    }
}

#[test]
fn kafka_sends() {
    let event = downstream_event(&publish(None), "i", "the-id".into(), "t".into(), vec![], None);
    let ready = app(Some("True"));
    assert_eq!(
        kafka_send_plan(&SinkTarget::Events(&ready), &event),
        Ok((KafkaEventType::Events, "app%201/dev".to_string()))
    );
    assert_eq!(
        kafka_send_plan(&SinkTarget::Commands(&ready), &event),
        Ok((KafkaEventType::Commands, "app%201/dev".to_string()))
    );
    assert_eq!(SinkTarget::Commands(&ready).application().name, "app");
    for not_ready in [app(Some("False")), app(None)] {
        assert_eq!(
            kafka_send_plan(&SinkTarget::Events(&not_ready), &event),
            Err(SinkError::Transport(KafkaSinkError::NotReady))
        );
    }
    assert_eq!(delivery_outcome(Delivery::Delivered), Ok(PublishOutcome::Accepted));
    assert_eq!(http_outcome(202), PublishOutcome::Accepted);
    assert_eq!(http_outcome(500), PublishOutcome::Rejected);
    assert_eq!(http_outcome(199), PublishOutcome::Rejected);
    assert_eq!(delivery_outcome(Delivery::QueueFull), Ok(PublishOutcome::QueueFull));
    assert_eq!(
        delivery_outcome(Delivery::Canceled),
        Err(SinkError::Transport(KafkaSinkError::Canceled))
    );
    assert_eq!(
        delivery_outcome(Delivery::Failed("broker".into())),
        Err(SinkError::Transport(KafkaSinkError::Kafka("broker".into())))
    );
    assert_eq!(
        delivery_outcome(Delivery::NotQueued("size".into())),
        Err(SinkError::Transport(KafkaSinkError::Kafka("size".into())))
    );
}
