use drogue_cloud_core::auth::{
    http_auth_plan_for, mqtt_auth_plan_for, simple_auth_plan_for, AuthPlan, AuthValue,
    AuthenticationRequest, ClientError, Credential, DeviceAuthenticator, Username,
};
use http::HeaderValue;

fn auth_value(header: HeaderValue) -> AuthValue {
    AuthValue::from_header(header.as_bytes())
}

#[test]
fn test_user_scoped() {
    let user = Username::from_name("device@scope");
    assert_eq!(
        user,
        Username::Scoped {
            scope: "scope".into(),
            device: "device".into()
        }
    )
}

#[test]
fn test_basic_rfc() {
    let auth: AuthValue = auth_value(HeaderValue::from_static(
        "Basic QWxhZGRpbjpvcGVuIHNlc2FtZQ==",
    ));
    assert_eq!(
        auth,
        AuthValue::Basic {
            username: Username::from_name("Aladdin"),
            password: "open sesame".into()
        }
    )
}

#[test]
fn test_basic_special_username() {
    let auth: AuthValue = auth_value(HeaderValue::from_static("Basic Zm9vQGJhcjpiYXo="));
    assert_eq!(
        auth,
        AuthValue::Basic {
            username: Username::from_name("foo@bar"),
            password: "baz".into()
        }
    )
}

#[test]
fn test_basic_invalid_base64() {
    let auth: AuthValue = auth_value(HeaderValue::from_static("Basic 1234"));
    assert_eq!(auth, AuthValue::Unknown)
}

#[test]
fn test_basic_missing_colon() {
    let auth: AuthValue = auth_value(HeaderValue::from_static("Basic Zm9vYmFy"));
    assert_eq!(auth, AuthValue::Unknown)
}

#[test]
fn test_unknown_scheme() {
    let auth: AuthValue = auth_value(HeaderValue::from_static("Foo Bar"));
    assert_eq!(auth, AuthValue::Unknown)
}

#[test]
fn test_unknown_format() {
    let auth: AuthValue = auth_value(HeaderValue::from_static("FooBarBaz"));
    assert_eq!(auth, AuthValue::Unknown)
}

#[test]
fn test_unknown_empty() {
    let auth: AuthValue = auth_value(HeaderValue::from_static(""));
    assert_eq!(auth, AuthValue::Unknown)
}

#[test]
fn test_bearer_rfc() {
    let auth: AuthValue = auth_value(HeaderValue::from_static("Bearer mF_9.B5f-4.1JqM"));
    assert_eq!(auth, AuthValue::Bearer("mF_9.B5f-4.1JqM".into()))
}

#[test]
fn username_percent_decodes_the_device_only() {
    assert_eq!(
        Username::from_name("dev%40ice@sco%40pe"),
        Username::Scoped {
            scope: "sco%40pe".into(),
            device: "dev@ice".into()
        }
    );
    assert_eq!(
        Username::from_name("plain"),
        Username::NonScoped("plain".into())
    );
}

#[test]
fn username_reads_back() {
    assert_eq!(Username::from_name("device@scope").into_string(), "device@scope");
    assert_eq!(Username::from_name("device@scope@x").into_string(), "device@scope@x");
    assert_eq!(Username::from_name("plain").into_string(), "plain");
    assert_eq!(
        Username::Scoped { scope: "scope".into(), device: "device".into() }.into_string(),
        "device@scope"
    );
}

#[test]
fn header_that_is_not_text_is_unknown() {
    assert_eq!(AuthValue::from_header(b"Bearer \xfftoken"), AuthValue::Unknown);
    assert_eq!(AuthValue::from_header(b"Bearer tok\ten"), AuthValue::Bearer("tok\ten".into()));
}

fn req(app: &str, device: &str, credential: Credential, as_device: Option<&str>) -> AuthPlan {
    AuthPlan::Request(AuthenticationRequest {
        application: app.into(),
        device: device.into(),
        credential,
        as_device: as_device.map(|s| s.to_string()),
    })
}

fn basic(user: &str, password: &str) -> Vec<u8> {
    format!("Basic {}", base64::encode(format!("{}:{}", user, password))).into_bytes()
}

#[test]
fn http_plan_scoped_basic_auth_is_a_password() {
    let h = basic("dev@app", "pwd");
    let plan = http_auth_plan_for(None, None, Some(&h), None, Some("other".into()));
    assert_eq!(plan, req("app", "dev", Credential::Password("pwd".into()), Some("other")));
}

#[test]
fn http_plan_application_parameter() {
    let h = basic("dev", "pwd");
    let plan = http_auth_plan_for(Some("app".into()), None, Some(&h), None, None);
    assert_eq!(plan, req("app", "dev", Credential::Password("pwd".into()), None));

    let plan = http_auth_plan_for(
        Some("app".into()),
        Some("dev".into()),
        Some(&h),
        None,
        None,
    );
    assert_eq!(
        plan,
        req(
            "app",
            "dev",
            Credential::UsernamePassword {
                username: "dev".into(),
                password: "pwd".into()
            },
            None
        )
    );
}

#[test]
fn http_plan_device_parameter() {
    let h = basic("user@app", "pwd");
    let plan = http_auth_plan_for(None, Some("dev".into()), Some(&h), None, None);
    assert_eq!(
        plan,
        req(
            "app",
            "dev",
            Credential::UsernamePassword {
                username: "user".into(),
                password: "pwd".into()
            },
            None
        )
    );
}

#[test]
fn http_plan_certificate_and_failures() {
    let plan = http_auth_plan_for(None, None, None, Some(vec![vec![1, 2]]), None);
    assert_eq!(plan, AuthPlan::Certificate(vec![vec![1, 2]]));
    let h = basic("dev@app", "pwd");
    let plan = http_auth_plan_for(None, None, Some(&h), Some(vec![vec![1]]), None);
    assert_eq!(plan, AuthPlan::Fail);
    let plan = http_auth_plan_for(None, None, Some(b"Bearer x"), None, None);
    assert_eq!(plan, AuthPlan::Fail);
}

#[test]
fn mqtt_plans() {
    assert_eq!(
        mqtt_auth_plan_for(Some("dev@app"), Some("pwd".into()), "client", None),
        req("app", "dev", Credential::Password("pwd".into()), None)
    );
    assert_eq!(
        mqtt_auth_plan_for(Some("user"), Some("pwd".into()), "dev@app", None),
        req(
            "app",
            "dev",
            Credential::UsernamePassword {
                username: "user".into(),
                password: "pwd".into()
            },
            None
        )
    );
    assert_eq!(
        mqtt_auth_plan_for(None, None, "client", Some(vec![vec![7]])),
        AuthPlan::Certificate(vec![vec![7]])
    );
    assert_eq!(mqtt_auth_plan_for(Some("user"), Some("pwd".into()), "client", None), AuthPlan::Fail);
    assert_eq!(mqtt_auth_plan_for(Some("dev@app"), None, "client", None), AuthPlan::Fail);
}

#[test]
fn simple_plans() {
    assert_eq!(
        simple_auth_plan_for("d%20x@app", "p%21"),
        req("app", "d x", Credential::Password("p!".into()), None)
    );
    assert_eq!(simple_auth_plan_for("a@b@c", "p"), AuthPlan::Fail);
    assert_eq!(simple_auth_plan_for("nodevice", "p"), AuthPlan::Fail);
    assert_eq!(simple_auth_plan_for("d%ff@app", "p"), AuthPlan::Fail);
    // a `%` without two hexadecimal digits stays as it is
    assert_eq!(
        simple_auth_plan_for("d%zz@app", "p%4"),
        req("app", "d%zz", Credential::Password("p%4".into()), None)
    );
    assert_eq!(
        simple_auth_plan_for("%C3%A9@app", "p"),
        req("app", "é", Credential::Password("p".into()), None)
    );
}

/// A certificate for `CN=device1`, issued by `CN=app1`, DER encoded (hex).
const DEVICE_CERT: &[&str] = &[
    "308201663082010ba00302010202140bb847e975091567215ea7615ce77a5d59570c94300a06082a8648ce3d04030230",
    "0f310d300b06035504030c0461707031301e170d3236313131383034303033345a170d3336313131353034303033345a",
    "30123110300e06035504030c07646576696365313059301306072a8648ce3d020106082a8648ce3d03010703420004f5",
    "36d1198661cf138952b231ffe95b607c127e0e8ddabcb13464d360f11943ad9bc97ff1bdd0eaaea68eed1d8302e11cc2",
    "c65a4f3b4a18a4b29ccd40e38321c2a3423040301d0603551d0e04160414e9bfcda5c73955cfa9c73e35352f4de103a0",
    "226c301f0603551d230418301680142c59f64e3ab17412203aa27525c9e39908a3c0a7300a06082a8648ce3d04030203",
    "49003046022100b91de7563b136aac17380a513093d7d0dba8346c9822341465f54d71acdd11ba022100a23d29fe54ed",
    "10bf19f35ed4082c51295cd66379949af3742520ed0aa09b8376",
];

fn device_cert() -> Vec<u8> {
    let hex: String = DEVICE_CERT.concat();
    (0..hex.len()).step_by(2).map(|i| u8::from_str_radix(&hex[i..i + 2], 16).unwrap()).collect()
}

#[test]
fn certificate_chains() {
    assert_eq!(
        DeviceAuthenticator::ids_from_cert(&[device_cert()]),
        Ok(("CN=app1".to_string(), "CN=device1".to_string()))
    );
    assert_eq!(
        DeviceAuthenticator::ids_from_cert(&[]),
        Err(ClientError::Request("Empty client certificate chain".into()))
    );
    match DeviceAuthenticator::ids_from_cert(&[vec![1, 2, 3]]) {
        Err(ClientError::Request(m)) => assert!(m.starts_with("Failed to parse client certificate: ")),
        other => panic!("unexpected {:?}", other),
    }
    let req = DeviceAuthenticator::certificate_request(vec![device_cert()]).unwrap();
    assert_eq!(req.application, "CN=app1");
    assert_eq!(req.device, "CN=device1");
    assert_eq!(req.as_device, None);
}
