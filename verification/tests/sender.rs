use drogue_cloud_core::sender::PublishError;
use drogue_cloud_core::sink::SinkError;
use drogue_cloud_core::event::{Data, ExtensionValue};
use drogue_cloud_core::json::JsonValue;
use drogue_cloud_core::process::Outcome;
use drogue_cloud_core::registry::{Application, Device};
use drogue_cloud_core::sender::{
    after_rules, is_json, new_publish_event, publish_event, publish_http_response, IntoPublishId, Publish,
    PublishId, PublishIdPair, PublishOptions, PublishOutcome, PublishStep, ToPublishId,
};
use drogue_cloud_core::telemetry::{
    command_response, publish_reply, publish_request, verify_jwt_claims, AuthOutcome, PublishCommonOptions,
    PublishOptions as HttpOptions, PublishReply,
};
use drogue_cloud_core::ttn::{uplink_publish, Uplink};

fn device(name: &str) -> Device {
    Device { name: name.into(), uid: format!("{}-uid", name), spec: vec![] }
}

fn publish(content_type: Option<&str>) -> Publish {
    Publish {
        application: Application { name: "my app".into(), uid: "a-uid".into(), conditions: None },
        device: PublishId { name: "dev/1".into(), uid: Some("d-uid".into()) },
        sender: PublishId { name: "gw".into(), uid: None },
        channel: "telemetry".into(),
        options: PublishOptions {
            time: None,
            topic: None,
            data_schema: Some("urn:schema".into()),
            content_type: content_type.map(|s| s.to_string()),
            extensions: vec![("partitionkey".into(), "custom".into()), ("x".into(), "y".into())],
        },
    }
}

fn ext(name: &str, value: &str) -> (String, ExtensionValue) {
    (name.to_string(), ExtensionValue::String(value.to_string()))
}

#[test]
fn events_of_publishes() {
    let event = publish_event(
        &publish(Some("text/plain")),
        "inst",
        "id-1".into(),
        "2021-01-01T00:00:00Z".into(),
        b"hello".to_vec(),
        None,
    )
    .unwrap();
    assert_eq!(event.id, "id-1");
    assert_eq!(event.ty, "io.drogue.event.v1");
    assert_eq!(event.source, "drogue://my%20app/dev%2F1");
    assert_eq!(event.subject.as_deref(), Some("telemetry"));
    assert_eq!(event.time.as_deref(), Some("2021-01-01T00:00:00Z"));
    assert_eq!(event.datacontenttype.as_deref(), Some("text/plain"));
    assert_eq!(event.dataschema, None);
    assert_eq!(event.data, Some(Data::Binary(b"hello".to_vec())));
    assert_eq!(
        event.extensions,
        vec![
            ext("application", "my app"),
            ext("device", "dev/1"),
            ext("applicationuid", "a-uid"),
            ext("deviceuid", "d-uid"),
            ext("partitionkey", "custom"),
            ext("instance", "inst"),
            ext("sender", "gw"),
            ext("dataschema", "urn:schema"),
            ext("x", "y"),
        ]
    );
}

#[test]
fn fresh_events() {
    let event = new_publish_event(&publish(Some("text/plain")), "inst", b"hello".to_vec(), None)
        .unwrap();
    assert_eq!(event.id.len(), 36);
    assert_eq!(event.id.matches('-').count(), 4);
    assert!(event.time.as_deref().map_or(false, |t| t.len() >= 20));
    let again = publish_event(
        &publish(Some("text/plain")),
        "inst",
        event.id.clone(),
        event.time.clone().unwrap(),
        b"hello".to_vec(),
        None,
    )
    .unwrap();
    assert_eq!(event.source, again.source);
    assert_eq!(event.extensions, again.extensions);
    assert_eq!(event.data, again.data);
    let other = new_publish_event(&publish(Some("text/plain")), "inst", b"hello".to_vec(), None)
        .unwrap();
    assert_ne!(event.id, other.id);
    assert_eq!(
        new_publish_event(&publish(Some("application/json")), "i", b"{".to_vec(), None).err(),
        Some(PublishOutcome::Rejected)
    );
}

#[test]
fn json_bodies() {
    let v = JsonValue::Bool(true);
    let event = publish_event(&publish(None), "i", "1".into(), "t".into(), b"true".to_vec(), Some(v))
        .unwrap();
    assert_eq!(event.datacontenttype.as_deref(), Some("application/json"));
    assert_eq!(event.data, Some(Data::Json(JsonValue::Bool(true))));

    let event = publish_event(&publish(None), "i", "1".into(), "t".into(), b"{".to_vec(), None).unwrap();
    assert_eq!(event.datacontenttype.as_deref(), Some("application/octet-stream"));

    assert!(publish_event(
        &publish(Some("application/json")),
        "i",
        "1".into(),
        "t".into(),
        b"{".to_vec(),
        None
    )
    .is_none());
    assert!(is_json("application/vnd.foo+json"));
    assert!(!is_json("text/plain"));
}

#[test]
fn outcomes_and_responses() {
    assert!(matches!(after_rules(Outcome::Dropped), PublishStep::Done(PublishOutcome::Accepted)));
    assert!(matches!(
        after_rules(Outcome::Rejected("r".into())),
        PublishStep::Done(PublishOutcome::Rejected)
    ));
    let r = publish_http_response(Ok(PublishOutcome::Accepted));
    assert_eq!((r.status, r.body, r.label.as_str()), (202, None, "Accepted"));
    let r = publish_http_response(Ok(PublishOutcome::Rejected));
    assert_eq!((r.status, r.body, r.label.as_str()), (406, None, "Rejected"));
    let r = publish_http_response(Ok(PublishOutcome::QueueFull));
    assert_eq!((r.status, r.body, r.label.as_str()), (503, None, "QueueFull"));
    let r = publish_http_response(Err("e".into()));
    assert_eq!(r.status, 500);
    assert_eq!(r.body, Some(("text/plain".to_string(), "e".to_string())));
    assert_eq!(r.label, "Error");
}

#[test]
fn publish_ids() {
    let pair = PublishIdPair::with_devices(device("gw"), Some(device("d1")));
    assert_eq!(pair.device, PublishId { name: "d1".into(), uid: Some("d1-uid".into()) });
    assert_eq!(pair.sender, PublishId { name: "gw".into(), uid: Some("gw-uid".into()) });
    let pair = PublishIdPair::with_devices(device("d1"), None);
    assert_eq!(pair.device, pair.sender);
    assert_eq!("n".to_string().into_id(), PublishId { name: "n".into(), uid: None });
    assert_eq!(device("d").to_id().uid.as_deref(), Some("d-uid"));
}

#[test]
fn http_telemetry() {
    let opts = HttpOptions {
        common: PublishCommonOptions { application: None, device: None, data_schema: Some("s".into()) },
        as_device: None,
        ct: Some(5),
    };
    assert!(publish_request(AuthOutcome::Fail, "c".into(), None, opts.clone(), None).is_err());
    let p = publish_request(
        AuthOutcome::Pass {
            application: Application { name: "a".into(), uid: "u".into(), conditions: None },
            device: device("d"),
            as_device: None,
        },
        "c".into(),
        Some("x".into()),
        opts,
        Some("text/plain".into()),
    )
    .unwrap();
    assert_eq!(p.channel, "c");
    assert_eq!(p.options.topic.as_deref(), Some("x"));
    assert_eq!(p.options.data_schema.as_deref(), Some("s"));

    match publish_reply(Ok(PublishOutcome::Accepted), "a".into(), "gw".into(), "d".into(), Some(5)) {
        PublishReply::Wait { filter, seconds } => {
            assert_eq!(seconds, 5);
            assert_eq!(filter.gateway, "gw");
            assert_eq!(filter.device.as_deref(), Some("d"));
        }
        other => panic!("unexpected {:?}", other),
    }
    assert!(matches!(
        publish_reply(Ok(PublishOutcome::Accepted), "a".into(), "gw".into(), "d".into(), Some(0)),
        PublishReply::Respond { status: 202, error: None }
    ));
    assert!(matches!(
        publish_reply(Err("x".into()), "a".into(), "gw".into(), "d".into(), None),
        PublishReply::Respond { status: 500, error: Some(_) }
    ));
    assert_eq!(command_response(None), (202, None));
}

#[test]
fn ttn_uplinks() {
    let uplink = Uplink {
        device_id: "d".into(),
        port: "5".into(),
        time: "t".into(),
        is_retry: Some(false),
        hardware_address: "hw".into(),
        payload_raw: vec![1],
        payload_fields: JsonValue::Null,
    };
    let opts = PublishCommonOptions { application: None, device: None, data_schema: None };
    let (p, body) = uplink_publish(
        AuthOutcome::Pass {
            application: Application { name: "a".into(), uid: "u".into(), conditions: None },
            device: device("d"),
            as_device: None,
        },
        opts,
        uplink,
        b"null".to_vec(),
        b"{}".to_vec(),
    )
    .unwrap();
    assert_eq!(p.channel, "5");
    assert_eq!(p.options.content_type, None);
    assert_eq!(body, b"{}".to_vec());
    assert_eq!(
        p.options.extensions,
        vec![
            ("lorawanport".to_string(), "5".to_string()),
            ("lorawanretry".to_string(), "false".to_string()),
            ("hwaddr".to_string(), "hw".to_string())
        ]
    );
}

#[test]
fn token_claims() {
    assert!(verify_jwt_claims("dev1", "/v1/dev1/telemetry"));
    assert!(verify_jwt_claims("dev1", "/v1/dev1"));
    assert!(!verify_jwt_claims("dev2", "/v1/dev1/telemetry"));
    assert!(verify_jwt_claims("x", "v1/dev1/x/y"));
    assert!(verify_jwt_claims("", "/v1//telemetry"));
}

#[test]
fn publish_error_texts() {
    let sink: PublishError<String> = PublishError::Sink(SinkError::Transport("x".into()));
    assert_eq!(sink.message(), "Sink error");
    assert_eq!(PublishError::<String>::Spec("x".into()).message(), "Publish spec error");
    assert_eq!(PublishError::<String>::Event("x".into()).message(), "Build event error");
}
