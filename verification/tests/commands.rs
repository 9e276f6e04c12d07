use drogue_cloud_core::command::{
    Command, CommandAddress, CommandFilter, CommandNameFilter, Commands,
};
use drogue_cloud_core::event::{Data, Event, ExtensionValue};
use drogue_cloud_core::json::JsonValue;
use drogue_cloud_core::router::{
    command_message, CommandMessage, CommandRouter, CommandSubscribe, CommandUnsubscribe,
};

const APP: &str = "test-app";

fn addr(gateway: &str, device: &str) -> CommandAddress {
    CommandAddress::new(APP.into(), gateway.into(), device.into())
}

fn receivers(reg: &Commands<&'static str>, gateway: &str, device: &str, command: &str) -> Vec<&'static str> {
    reg.deliveries(&addr(gateway, device), command)
        .into_iter()
        .map(|i| *reg.target(i))
        .collect()
}

#[test]
fn test_filters() {
    let mut reg = Commands::new();
    reg.subscribe(CommandFilter::device(APP.into(), "d1".into()), "d1");
    reg.subscribe(CommandFilter::wildcard(APP.into(), "gw1".into()), "gw1_all");
    reg.subscribe(CommandFilter::wildcard(APP.into(), "gw1".into()), "gw1_all_2");
    reg.subscribe(
        CommandFilter::proxied_device(APP.into(), "gw1".into(), "d1".into()),
        "gw1_d1",
    );

    assert_eq!(receivers(&reg, "d1", "d1", "d1-d1"), vec!["d1"]);
    assert_eq!(receivers(&reg, "gw1", "d1", "gw1-d1"), vec!["gw1_d1", "gw1_all", "gw1_all_2"]);
    assert_eq!(receivers(&reg, "gw1", "d2", "gw1-d2"), vec!["gw1_all", "gw1_all_2"]);
    assert_eq!(receivers(&reg, "d2", "d2", "d1-d1"), Vec::<&str>::new());
}

#[test]
fn test_command_filters() {
    let mut reg = Commands::new();
    let d1 = || CommandFilter::device(APP.into(), "d1".into());
    reg.subscribe(d1().with_filter(Some("#".to_string())), "d1f1");
    reg.subscribe(d1().with_filter(Some("foo".to_string())), "d1f2");
    reg.subscribe(d1().with_filter(Some("bar/+/baz".to_string())), "d1f3");
    reg.subscribe(d1().with_filter(Some("bar/baz/#".to_string())), "d1f4");

    assert_eq!(receivers(&reg, "d1", "d1", "foo-bar-baz"), vec!["d1f1"]);
    assert_eq!(receivers(&reg, "d1", "d1", "foo"), vec!["d1f1", "d1f2"]);
    assert_eq!(receivers(&reg, "d1", "d1", "bar/abc/baz"), vec!["d1f1", "d1f3"]);
    assert_eq!(receivers(&reg, "d1", "d1", "bar/baz/a"), vec!["d1f1", "d1f4"]);
    assert_eq!(receivers(&reg, "d1", "d1", "bar/baz/a/b/c"), vec!["d1f1", "d1f4"]);
}

#[test]
fn unsubscribe_stops_delivery() {
    let mut reg = Commands::new();
    let h = reg.subscribe(CommandFilter::device("test-stream".into(), "test".into()), "rx");
    let address = CommandAddress::new("test-stream".into(), "test".into(), "test".into());
    assert_eq!(reg.deliveries(&address, "test0"), vec![0]);
    assert_eq!(reg.len(), 1);
    reg.unsubscribe(&h);
    assert_eq!(reg.len(), 0);
    assert!(reg.deliveries(&address, "test5").is_empty());
}

#[test]
fn subscribing_normalizes_a_device_that_is_its_own_gateway() {
    let mut reg: Commands<()> = Commands::new();
    let h = reg.subscribe(CommandFilter::device(APP.into(), "d1".into()), ());
    assert_eq!(h.filter().device, None);
    assert_eq!(h.filter().gateway, "d1");
    let h2 = reg.subscribe(CommandFilter::proxied_device(APP.into(), "gw".into(), "d1".into()), ());
    assert_eq!(h2.filter().device, Some("d1".to_string()));
}

#[test]
fn name_filters() {
    assert_eq!(CommandNameFilter::from(&None), CommandNameFilter::Always);
    assert_eq!(CommandNameFilter::from(&Some("a/#/b".into())), CommandNameFilter::Never);
    let f = CommandNameFilter::from(&Some("a/+".into()));
    assert!(f.matches("a/b"));
    assert!(!f.matches("a/b/c"));
    assert!(!f.matches("a/#"));
    assert!(CommandNameFilter::Always.matches(""));
    assert!(!CommandNameFilter::Never.matches("x"));
}

#[test]
fn name_filter_wildcards() {
    let all = CommandNameFilter::from(&Some("#".into()));
    assert!(all.matches("a"));
    assert!(all.matches("a/b/c"));
    assert!(!all.matches("$SYS/x"));
    let one = CommandNameFilter::from(&Some("+".into()));
    assert!(one.matches("a"));
    assert!(!one.matches("a/b"));
    assert!(!one.matches("$SYS"));
    let parent = CommandNameFilter::from(&Some("a/#".into()));
    assert!(parent.matches("a"));
    assert!(parent.matches("a/b"));
    assert!(!parent.matches("b"));
    let sys = CommandNameFilter::from(&Some("$SYS/#".into()));
    assert!(sys.matches("$SYS/x"));
    assert!(!sys.matches("SYS/x"));
    assert_eq!(CommandNameFilter::from(&Some("a+".into())), CommandNameFilter::Never);
    assert_eq!(CommandNameFilter::from(&Some("#/a".into())), CommandNameFilter::Never);
    assert_eq!(CommandNameFilter::from(&Some("".into())), CommandNameFilter::Never);
    let empty_levels = CommandNameFilter::from(&Some("/+".into()));
    assert!(empty_levels.matches("/x"));
    assert!(!empty_levels.matches("x"));
}

#[test]
fn command_new_keeps_its_parts() {
    let c = Command::new(addr("g", "d"), "cmd".into(), Some(vec![1]));
    assert_eq!(c.address, addr("g", "d"));
    assert_eq!(c.command, "cmd");
    assert_eq!(c.payload, Some(vec![1]));
}

fn router_event(device: Option<&str>, data: Option<Data>) -> Event {
    Event {
        id: "1".into(),
        ty: "t".into(),
        source: "s".into(),
        subject: None,
        time: None,
        datacontenttype: None,
        dataschema: None,
        extensions: device
            .map(|d| vec![("deviceid".to_string(), ExtensionValue::String(d.to_string()))])
            .unwrap_or_default(),
        data,
    }
}

#[test]
fn router_messages() {
    let m = command_message(&router_event(Some("d1"), Some(Data::Binary(b"on".to_vec()))), None).unwrap();
    assert_eq!(m, CommandMessage { device_id: "d1".into(), command: "on".into() });
    let m = command_message(&router_event(Some("d1"), Some(Data::String("off".into()))), None).unwrap();
    assert_eq!(m.command, "off");
    let m = command_message(
        &router_event(Some("d1"), Some(Data::Json(JsonValue::Bool(true)))),
        Some("true".into()),
    )
    .unwrap();
    assert_eq!(m.command, "true");
    assert_eq!(
        command_message(&router_event(None, Some(Data::String("x".into()))), None),
        Err("No device-id provided".to_string())
    );
}

#[test]
fn router_routes() {
    let mut router = CommandRouter::new();
    let msg = |d: &str| CommandMessage { device_id: d.into(), command: "c".into() };
    assert_eq!(router.handle(&msg("a")), None);
    router.subscribe(CommandSubscribe("a".into(), 1));
    router.subscribe(CommandSubscribe("b".into(), 2));
    assert_eq!(router.handle(&msg("a")), Some(&1));
    router.subscribe(CommandSubscribe("a".into(), 3));
    assert_eq!(router.handle(&msg("a")), Some(&3));
    router.unsubscribe(CommandUnsubscribe("a".into()));
    assert_eq!(router.handle(&msg("a")), None);
    assert_eq!(router.handle(&msg("b")), Some(&2));
}
