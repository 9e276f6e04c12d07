use drogue_cloud_core::auth::{AuthConfig, ClientError, DeviceAuthenticator};
use drogue_cloud_core::command::{Command, CommandAddress, ParseCommandError};
use drogue_cloud_core::commands::{Command as DeviceCommand, Commands};
use drogue_cloud_core::endpoint::{bind_addr, is_ready, KafkaCommandSourceConfig};
use drogue_cloud_core::kafka::KafkaConfig;
use drogue_cloud_core::error::{EndpointError, HttpEndpointError};
use drogue_cloud_core::event::{Data, Event, ExtensionValue};
use drogue_cloud_core::external::{
    plan_request, ExternalClientPoolConfig, ExternalError, IntoPayload, RequestPayload,
};
use drogue_cloud_core::id::{Id, IdInjector};
use drogue_cloud_core::influx::ServiceError;
use drogue_cloud_core::process::{
    Authentication, ContentMode, ExternalEndpoint, Header, RequestType, TlsOptions,
};
use drogue_cloud_core::psk::Identity;
use drogue_cloud_core::registry::{Application, Condition};
use std::collections::HashMap;

#[test]
fn test_ready() {
    let mut app = Application { name: String::new(), uid: String::new(), conditions: None };
    assert!(!is_ready(&app));
    app.conditions = Some(vec![Condition {
        condition_type: "KafkaReady".into(),
        status: "True".into(),
    }]);
    assert!(is_ready(&app));
    app.conditions = Some(vec![Condition {
        condition_type: "KafkaReady".into(),
        status: "False".into(),
    }]);
    assert!(!is_ready(&app));
}

#[test]
fn test_key() {
    let key1a = None;
    let key1b = None;
    let key2a = Some(TlsOptions { insecure: false, certificate: None });
    let key2b = Some(TlsOptions { insecure: false, certificate: None });
    let key3 = Some(TlsOptions { insecure: true, certificate: None });

    let mut map = HashMap::new();

    map.insert(key1a.clone(), 100);
    map.insert(key1b.clone(), 1); // should override
    map.insert(key2a.clone(), 200);
    map.insert(key2b.clone(), 2); // should override
    map.insert(key3.clone(), 3);

    assert_eq!(Some(1), map.get(&key1a).cloned());
    assert_eq!(Some(1), map.get(&key1b).cloned());
    assert_eq!(Some(2), map.get(&key2a).cloned());
    assert_eq!(Some(2), map.get(&key2b).cloned());
    assert_eq!(Some(3), map.get(&key3).cloned());
}

#[test]
fn endpoint_errors() {
    let e = HttpEndpointError(EndpointError::AuthenticationError);
    assert_eq!(e.status_code(), 403);
    let r = e.error_response();
    assert_eq!(r.code, 403);
    assert_eq!(r.error, "AuthenticationError");
    assert_eq!(r.message, "Authentication failed");
    let e = HttpEndpointError(EndpointError::InvalidRequest { details: "x".into() });
    assert_eq!(e.status_code(), 400);
    assert_eq!(e.error_response().message, "Invalid data: x");
    let e = HttpEndpointError(EndpointError::AuthenticationServiceError { source: "down".into() });
    assert_eq!(e.status_code(), 503);
    assert_eq!(e.0.name(), "AuthenticationServiceError");
    let e = HttpEndpointError(EndpointError::ConfigurationError { details: "d".into() });
    assert_eq!(e.status_code(), 500);
    let e = HttpEndpointError(EndpointError::InvalidFormat { source: "s".into() });
    assert_eq!(e.error_response().message, "Invalid data format: s");
}

#[test]
fn service_errors() {
    let (status, body) = ServiceError::SelectorError { details: "$.x".into() }.error_response();
    assert_eq!(status, 406);
    assert_eq!(body.error, "SelectorError");
    assert_eq!(body.message, "Error processing JSON path: $.x");
    let (_, body) = ServiceError::PayloadParseError { details: "eof".into() }.error_response();
    assert_eq!(body.error, "PayloadError");
    assert_eq!(body.message, "Failed processing payload: eof");
}

#[test]
fn psk_identities() {
    let id = Identity::parse("device@app").unwrap();
    assert_eq!(id.device(), "device");
    assert_eq!(id.application(), "app");
    let id = Identity::parse("d@a@b").unwrap();
    assert_eq!(id.device(), "d");
    assert_eq!(id.application(), "a@b");
    assert_eq!(Identity::parse("device"), Err(()));
}

#[test]
fn authenticator_configuration() {
    let config = AuthConfig { auth_disabled: false, auth_service_url: "http://auth:8080/base".into() };
    let a = DeviceAuthenticator::with_config(config.clone(), true).unwrap();
    assert_eq!(a.auth_url, "http://auth:8080/api/v1/auth");
    assert!(a.token_auth);
    assert_eq!(
        DeviceAuthenticator::with_config(config.clone(), false),
        Err("Requested OAuth2 authentication without providing a configuration".to_string())
    );
    let disabled = AuthConfig { auth_disabled: true, ..config.clone() };
    let a = DeviceAuthenticator::with_config(disabled.clone(), false).unwrap();
    assert!(!a.token_auth);
    assert_eq!(
        DeviceAuthenticator::with_config(disabled, true),
        Err("Provided an OAuth2 configuration without requesting authentication".to_string())
    );
    let bad = AuthConfig { auth_disabled: false, auth_service_url: "no url".into() };
    assert_eq!(
        DeviceAuthenticator::with_config(bad, true),
        Err("Failed to parse URL for auth service".to_string())
    );
}

fn command_event(data: Option<Data>, subject: Option<&str>) -> Event {
    Event {
        id: "1".into(),
        ty: "t".into(),
        source: "s".into(),
        subject: subject.map(|s| s.to_string()),
        time: None,
        datacontenttype: None,
        dataschema: None,
        extensions: vec![],
        data,
    }
    .inject(Id::new("app".into(), "dev".into()))
}

#[test]
fn commands_from_events() {
    let c = Command::try_from_event(command_event(Some(Data::String("hi".into())), Some("set")), None)
        .unwrap();
    assert_eq!(c.address, CommandAddress::new("app".into(), "dev".into(), "dev".into()));
    assert_eq!(c.command, "set");
    assert_eq!(c.payload, Some(b"hi".to_vec()));

    let mut e = command_event(None, Some("set"));
    e.extensions.push(("sender".into(), ExtensionValue::String("gw".into())));
    let c = Command::try_from_event(e, None).unwrap();
    assert_eq!(c.address.gateway_id, "gw");
    assert_eq!(c.payload, None);

    assert_eq!(
        Command::try_from_event(command_event(None, None), None),
        Err(ParseCommandError::Missing("Command".into()))
    );
    let mut e = command_event(None, Some("x"));
    e.extensions.clear();
    assert_eq!(Command::try_from_event(e, None), Err(ParseCommandError::Missing("Address".into())));
    let e = command_event(Some(Data::Json(drogue_cloud_core::json::JsonValue::Null)), Some("x"));
    assert_eq!(Command::try_from_event(e, None), Err(ParseCommandError::Payload));

    let e = command_event(None, Some("x"));
    assert_eq!(Id::from_event(&e), Some(Id::new("app".into(), "dev".into())));
}

#[test]
fn device_commands_routing() {
    let mut commands = Commands::new();
    let d1 = Id::new("app".into(), "d1".into());
    let d2 = Id::new("app".into(), "d2".into());
    commands.subscribe(d1.clone(), "r1");
    commands.subscribe(d2.clone(), "r2");
    commands.subscribe(d1.clone(), "r1b");
    assert_eq!(commands.send(&DeviceCommand::new(d1.clone(), "c".into())), Ok(&"r1b"));
    commands.unsubscribe(&d1);
    assert_eq!(
        commands.send(&DeviceCommand::new(d1, "c".into())),
        Err("Device not found".to_string())
    );
    assert_eq!(commands.receiver(&d2), Some(&"r2"));
}

#[test]
fn external_requests() {
    let mut endpoint = ExternalEndpoint {
        method: None,
        url: "https://example.com/path".into(),
        tls: None,
        auth: Authentication::Bearer { token: "t".into() },
        headers: vec![Header { name: "X-Foo".into(), value: "bar".into() }],
        timeout_ms: None,
    };
    let plan = plan_request(RequestType::CloudEvent { mode: ContentMode::Binary }, &endpoint).unwrap();
    assert_eq!(plan.method, "POST");
    assert_eq!(plan.url, "https://example.com/path");
    assert_eq!(plan.headers, vec![("x-foo".to_string(), "bar".to_string())]);
    assert_eq!(plan.timeout_ms, 5000);
    assert_eq!(plan.mode, ContentMode::Binary);

    // a name given twice keeps its first place and its last value
    endpoint.headers = vec![
        Header { name: "X-Foo".into(), value: "1".into() },
        Header { name: "X-Bar".into(), value: "2".into() },
        Header { name: "x-foo".into(), value: "3".into() },
    ];
    let plan = plan_request(RequestType::CloudEvent { mode: ContentMode::Binary }, &endpoint).unwrap();
    assert_eq!(
        plan.headers,
        vec![("x-foo".to_string(), "3".to_string()), ("x-bar".to_string(), "2".to_string())]
    );

    // the characters a header name may hold
    endpoint.headers = vec![Header { name: "A\"b_~|".into(), value: "v".into() }];
    let plan = plan_request(RequestType::CloudEvent { mode: ContentMode::Binary }, &endpoint).unwrap();
    assert_eq!(plan.headers, vec![("a\"b_~|".to_string(), "v".to_string())]);
    for bad in ["a{", "é", "", "a:b"] {
        endpoint.headers = vec![Header { name: bad.into(), value: "v".into() }];
        assert!(plan_request(RequestType::CloudEvent { mode: ContentMode::Binary }, &endpoint).is_err());
    }
    endpoint.headers = vec![];

    endpoint.headers.push(Header { name: "x".into(), value: "a\nb".into() });
    assert_eq!(
        plan_request(RequestType::CloudEvent { mode: ContentMode::Binary }, &endpoint),
        Err(ExternalError::InvalidConfiguration(
            "Invalid header value: failed to parse header value".into()
        ))
    );
    endpoint.headers = vec![Header { name: "a b".into(), value: "v".into() }];
    assert_eq!(
        plan_request(RequestType::CloudEvent { mode: ContentMode::Binary }, &endpoint),
        Err(ExternalError::InvalidConfiguration(
            "Invalid header name: invalid HTTP header name".into()
        ))
    );
    endpoint.url = "nope".into();
    assert!(matches!(
        plan_request(RequestType::CloudEvent { mode: ContentMode::Binary }, &endpoint),
        Err(ExternalError::InvalidConfiguration(m)) if m.starts_with("Invalid URL: ")
    ));
    assert_eq!(ExternalClientPoolConfig::default_config().capacity, 8);
    assert_eq!(bind_addr(), "0.0.0.0:8081");
}

#[test]
fn command_source_streams() {
    let cfg = KafkaCommandSourceConfig {
        kafka: KafkaConfig {
            bootstrap_servers: "kafka:9092".into(),
            custom: vec![("a_b".into(), "c".into())],
        },
        topic: "commands".into(),
        consumer_group: "group".into(),
    }
    .stream_config();
    assert_eq!(cfg.kafka.bootstrap_servers, "kafka:9092");
    assert_eq!(cfg.kafka.properties, vec![("a_b".to_string(), "c".to_string())]);
    assert_eq!(cfg.topic, "commands");
    assert_eq!(cfg.consumer_group.as_deref(), Some("group"));
}

#[test]
fn request_payloads() {
    let event = command_event(None, Some("s"));
    let expected = command_event(None, Some("s"));
    let payload = drogue_cloud_core::process::RequestType::CloudEvent {
        mode: drogue_cloud_core::process::ContentMode::Structured,
    }
    .to_payload(event);
    match payload {
        RequestPayload::CloudEvent { mode, event } => {
            assert_eq!(mode, drogue_cloud_core::process::ContentMode::Structured);
            assert_eq!(event, expected);
        }
    }
}

#[test]
fn client_errors_are_service_errors() {
    let e = EndpointError::from(ClientError::Request("down".into()));
    assert_eq!(e, EndpointError::AuthenticationServiceError { source: "down".into() });
    let http = HttpEndpointError(e);
    assert_eq!(http.status_code(), 503);
    assert_eq!(http.error_response().message, "Failed to authenticate: down");
}
