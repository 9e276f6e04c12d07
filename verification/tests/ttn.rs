use drogue_cloud_core::json::JsonValue;
use drogue_cloud_core::registry::Device;
use drogue_cloud_core::error::{EndpointError, HttpEndpointError};
use drogue_cloud_core::registry::Application;
use drogue_cloud_core::telemetry::{AuthOutcome, PublishCommonOptions};
use drogue_cloud_core::ttn::{
    eval_data_schema, v2_uplink_publish, v3_uplink, V2Uplink, V3Message, V3Payload,
};

fn s(v: &str) -> JsonValue {
    JsonValue::String(v.into())
}

fn obj(members: Vec<(&str, JsonValue)>) -> JsonValue {
    JsonValue::Object(members.into_iter().map(|(k, v)| (k.to_string(), v)).collect())
}

fn device(lorawan_spec: Option<JsonValue>) -> Device {
    let mut spec = vec![];
    if let Some(lorawan_spec) = lorawan_spec {
        spec.push(("lorawan".to_string(), lorawan_spec));
    }
    Device { name: String::new(), uid: String::new(), spec }
}

fn mapping() -> JsonValue {
    obj(vec![(
        "ports",
        obj(vec![
            ("1", obj(vec![("data_schema", s("mod1"))])),
            ("5", obj(vec![("data_schema", s("mod5"))])),
        ]),
    )])
}

fn port(p: u16) -> String {
    p.to_string()
}

#[test]
fn ttn_test_model_mapping() {
    let device = device(Some(mapping()));
    assert_eq!(eval_data_schema(None, &device, &None, &port(5)), Some(String::from("mod5")));
}

#[test]
fn ttn_test_model_no_mapping_1() {
    let device = device(None);
    assert_eq!(eval_data_schema(None, &device, &None, &port(5)), None);
}

#[test]
fn ttn_test_model_no_mapping_2() {
    let device = device(Some(obj(vec![("ports", obj(vec![("1", obj(vec![("data_schema", s("mod1"))]))]))])));
    assert_eq!(eval_data_schema(None, &device, &None, &port(5)), None);
}

#[test]
fn ttn_test_model_no_mapping_3() {
    let device = device(Some(obj(vec![("ports", obj(vec![("1", obj(vec![("no_data_schema", s("mod1"))]))]))])));
    assert_eq!(eval_data_schema(None, &device, &None, &port(5)), None);
}

#[test]
fn mod_test_model_mapping() {
    let device = device(Some(mapping()));
    assert_eq!(eval_data_schema(None, &device, &None, &port(5)), Some(String::from("mod5")));
}

#[test]
fn mod_test_model_no_mapping_1() {
    let device = device(None);
    assert_eq!(eval_data_schema(None, &device, &None, &port(5)), None);
}

#[test]
fn mod_test_model_no_mapping_2() {
    let device = device(Some(obj(vec![("ports", obj(vec![("1", obj(vec![("data_schema", s("mod1"))]))]))])));
    assert_eq!(eval_data_schema(None, &device, &None, &port(5)), None);
}

#[test]
fn mod_test_model_no_mapping_3() {
    let device = device(Some(obj(vec![("ports", obj(vec![("1", obj(vec![("no_data_schema", s("mod1"))]))]))])));
    assert_eq!(eval_data_schema(None, &device, &None, &port(5)), None);
}

#[test]
fn given_model_id_wins_and_as_device_counts() {
    let plain = device(None);
    let other = Some(device(Some(mapping())));
    assert_eq!(eval_data_schema(Some("m".into()), &plain, &other, "1"), Some("m".to_string()));
    assert_eq!(eval_data_schema(None, &plain, &other, "1"), Some("mod1".to_string()));
}

#[test]
fn v3_messages() {
    let uplink = v3_uplink(V3Message {
        device_id: "dev-1".into(),
        dev_addr: "26011234".into(),
        payload: V3Payload::Uplink {
            frame_port: 42,
            received_at: "2021-02-03T04:05:06Z".into(),
            frame_payload: vec![1, 2],
            decoded_payload: None,
        },
    })
    .unwrap();
    assert_eq!(uplink.device_id, "dev-1");
    assert_eq!(uplink.port, "42");
    assert_eq!(uplink.time, "2021-02-03T04:05:06Z");
    assert_eq!(uplink.is_retry, None);
    assert_eq!(uplink.hardware_address, "26011234");
    assert_eq!(uplink.payload_raw, vec![1, 2]);
    assert_eq!(uplink.payload_fields, JsonValue::Null);

    let other = v3_uplink(V3Message { device_id: "d".into(), dev_addr: "a".into(), payload: V3Payload::Other });
    assert_eq!(
        other.unwrap_err(),
        HttpEndpointError(EndpointError::InvalidRequest {
            details: "Invalid message type, expected 'Uplink'".into()
        })
    );
}

fn v2(port: u16) -> V2Uplink {
    V2Uplink {
        dev_id: "ttn-dev".into(),
        hardware_serial: "0102".into(),
        port,
        is_retry: true,
        time: "2021-01-01T00:00:00Z".into(),
        payload_raw: vec![9],
        payload_fields: obj(vec![("t", s("x"))]),
    }
}

fn pass(device: Device) -> AuthOutcome {
    AuthOutcome::Pass {
        application: Application { name: "app".into(), uid: "u".into(), conditions: None },
        device,
        as_device: None,
    }
}

#[test]
fn v2_uplinks() {
    let opts = PublishCommonOptions { application: None, device: None, data_schema: None };
    let mut dev = device(Some(mapping()));
    dev.spec.push(("ttn".into(), obj(vec![("payload", s("raw"))])));
    let (p, body) = v2_uplink_publish(pass(dev), opts.clone(), v2(5), b"{}".to_vec(), b"all".to_vec()).unwrap();
    assert_eq!(p.channel, "5");
    assert_eq!(p.app_id, "app");
    assert_eq!(p.device_id, "ttn-dev");
    assert_eq!(p.options.time.as_deref(), Some("2021-01-01T00:00:00Z"));
    assert_eq!(p.options.data_schema.as_deref(), Some("mod5"));
    assert_eq!(p.options.content_type.as_deref(), Some("application/octet-stream"));
    assert_eq!(body, vec![9]);
    assert_eq!(
        p.options.extensions,
        vec![
            ("lorawanport".to_string(), "5".to_string()),
            ("loraretry".to_string(), "true".to_string()),
            ("hwaddr".to_string(), "0102".to_string())
        ]
    );

    let (p, body) = v2_uplink_publish(pass(device(None)), opts.clone(), v2(7), b"{}".to_vec(), b"all".to_vec()).unwrap();
    assert_eq!(p.options.data_schema, None);
    assert_eq!(p.options.content_type, None);
    assert_eq!(body, b"all".to_vec());

    assert!(matches!(
        v2_uplink_publish(AuthOutcome::Fail, opts, v2(1), vec![], vec![]),
        Err(HttpEndpointError(EndpointError::AuthenticationError))
    ));
}
