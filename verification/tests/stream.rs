use drogue_cloud_core::event::{Data, Event};
use drogue_cloud_core::json::JsonValue;
use drogue_cloud_core::kafka::KafkaClientConfig;
use drogue_cloud_core::stream::{
    consumer_group, consumer_settings, fixup_data_type, AutoAck, CustomAck, DeclaredContentType, EventStreamConfig,
};

fn event(ct: Option<&str>, data: Option<Data>) -> Event {
    Event {
        id: "123".into(),
        ty: "type".into(),
        source: "source".into(),
        subject: Some("foo".into()),
        time: None,
        datacontenttype: ct.map(|s| s.to_string()),
        dataschema: Some("https://foo.bar/".into()),
        extensions: vec![],
        data,
    }
}

fn foo_bar() -> JsonValue {
    JsonValue::Object(vec![("foo".into(), JsonValue::String("bar".into()))])
}

// What the JSON parser gives for the text or bytes of the data.
fn parsed(data: &Option<Data>) -> Option<JsonValue> {
    let text = match data {
        Some(Data::String(s)) => s.clone(),
        Some(Data::Binary(b)) => String::from_utf8(b.clone()).ok()?,
        _ => return None,
    };
    if text == r#"{"foo": "bar"}"# {
        Some(foo_bar())
    } else {
        None
    }
}

#[test]
fn test_fixup_json() {
    for (content_type, input, output) in [
        // is text, convert to json
        (
            Some("text/json"),
            Some(Data::String(r#"{"foo": "bar"}"#.into())),
            Some(Data::Json(foo_bar())),
        ),
        // is binary, convert to json
        (
            Some("text/json"),
            Some(Data::Binary(r#"{"foo": "bar"}"#.as_bytes().into())),
            Some(Data::Json(foo_bar())),
        ),
        // is text, but content type doesn't indicate JSON, leave it
        (
            Some("text/plain"),
            Some(Data::String(r#"{"foo": "bar"}"#.into())),
            Some(Data::String(r#"{"foo": "bar"}"#.into())),
        ),
        // JSON, but no paylod
        (Some("text/json"), None, None),
        // JSON, but broken payload, leave it alone
        (
            Some("text/json"),
            Some(Data::String(r#"{"foo""#.into())),
            Some(Data::String(r#"{"foo""#.into())),
        ),
        // is binary, convert to text, even though it is JSON
        (
            Some("text/plain"),
            Some(Data::Binary(r#"{"foo": "bar"}"#.as_bytes().into())),
            Some(Data::String(r#"{"foo": "bar"}"#.into())),
        ),
        // is binary, but unknown type, leave it
        (
            Some("something/different"),
            Some(Data::Binary(r#"{"foo": "bar"}"#.as_bytes().into())),
            Some(Data::Binary(r#"{"foo": "bar"}"#.as_bytes().into())),
        ),
    ] {
        let p = parsed(&input);
        let event = fixup_data_type(event(content_type, input), p, None);

        assert_eq!(event.datacontenttype.as_deref(), content_type);
        assert_eq!(event.dataschema.as_deref(), Some("https://foo.bar/"));
        assert_eq!(event.data, output);
    }
}

#[test]
fn json_as_text_and_invalid_bytes() {
    let e = fixup_data_type(
        event(Some("text/plain"), Some(Data::Json(foo_bar()))),
        None,
        Some(r#"{"foo":"bar"}"#.into()),
    );
    assert_eq!(e.data, Some(Data::String(r#"{"foo":"bar"}"#.into())));
    let e = fixup_data_type(event(Some("text/plain"), Some(Data::Binary(vec![0xff, 0xfe]))), None, None);
    assert_eq!(e.data, Some(Data::Binary(vec![0xff, 0xfe])));
}

#[test]
fn declared_content_types() {
    assert_eq!(DeclaredContentType::detect(Some("application/json")), DeclaredContentType::Json);
    assert_eq!(DeclaredContentType::detect(Some("application/cloudevents+json")), DeclaredContentType::Json);
    assert_eq!(DeclaredContentType::detect(Some("text/plain; charset=utf-8")), DeclaredContentType::String);
    assert_eq!(DeclaredContentType::detect(Some("image/png")), DeclaredContentType::Other);
    assert_eq!(DeclaredContentType::detect(None), DeclaredContentType::Other);
    assert!(DeclaredContentType::is_json_content_type("text/json"));
    assert!(!DeclaredContentType::is_text_content_type("text/html"));
}

#[test]
fn consumer_settings_of_a_stream() {
    let cfg = EventStreamConfig {
        kafka: KafkaClientConfig {
            bootstrap_servers: "kafka:9092".into(),
            properties: vec![("security_protocol".into(), "SSL".into())],
        },
        topic: "events".into(),
        consumer_group: Some("g".into()),
    };
    let settings = consumer_settings::<AutoAck>(&cfg, "g");
    assert_eq!(settings[0], ("bootstrap.servers".to_string(), "kafka:9092".to_string()));
    assert_eq!(settings[5], ("security.protocol".to_string(), "SSL".to_string()));
    assert_eq!(settings[6], ("group.id".to_string(), "g".to_string()));
    assert_eq!(settings[7], ("enable.auto.offset.store".to_string(), "true".to_string()));
    let settings = consumer_settings::<CustomAck>(&cfg, "g");
    assert_eq!(settings[7], ("enable.auto.offset.store".to_string(), "false".to_string()));
}

#[test]
fn consumer_groups() {
    let mut cfg = EventStreamConfig {
        kafka: KafkaClientConfig { bootstrap_servers: "k".into(), properties: vec![] },
        topic: "events".into(),
        consumer_group: Some("drogue".into()),
    };
    assert_eq!(consumer_group(&cfg), "drogue");
    cfg.consumer_group = None;
    let a = consumer_group(&cfg);
    let b = consumer_group(&cfg);
    assert!(a.starts_with("anonymous."));
    assert_eq!(a.len(), 46);
    assert_ne!(a, b);
}
