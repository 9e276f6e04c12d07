use drogue_cloud_core::sender::Direction;
use drogue_cloud_core::event::{Data, Event, ExtensionValue};
use drogue_cloud_core::json::JsonValue;
use drogue_cloud_core::process::{
    enrich_reply, enriched_data, enriched_event, json_rejection, set_attribute, text_rejection,
    validate_reply, Action, Authentication, ContentMode, EnrichNext, EnrichSpec,
    ExternalEndpoint, Outcome, ProcessError, Processor, ReadError, RequestType, ResponseType,
    Rule, Step, StepOutcome, ValidateNext, ValidateSpec, When,
};

fn event(id: &str, ty: &str, source: &str, subject: &str) -> Event {
    Event {
        id: id.into(),
        ty: ty.into(),
        source: source.into(),
        subject: Some(subject.into()),
        time: None,
        datacontenttype: None,
        dataschema: None,
        extensions: vec![],
        data: None,
    }
}

fn run_local(processor: &Processor, input: Event) -> Result<Outcome, ProcessError> {
    match processor.start(input) {
        Action::Finished(r) => r,
        Action::External(_) => panic!("no external step expected"),
    }
}

fn endpoint(url: &str) -> ExternalEndpoint {
    ExternalEndpoint {
        method: None,
        url: url.into(),
        tls: None,
        auth: Authentication::Anonymous,
        headers: vec![],
        timeout_ms: None,
    }
}

fn default_case() {
    let processor = Processor::new(vec![]);
    assert_eq!(
        run_local(&processor, event("id1", "type", "source", "chan1")),
        Ok(Outcome::Accepted(event("id1", "type", "source", "chan1")))
    );
}

fn s1_case() {
    let processor = Processor::new(vec![Rule {
        when: When::IsChannel("chan1".into()),
        steps: vec![
            Step::SetAttribute {
                name: "dataschema".into(),
                value: "urn:my:schema".into(),
            },
            Step::RemoveExtension("my-ext-1".into()),
        ],
    }]);

    let mut input = event("id1", "type", "source", "chan1");
    input
        .extensions
        .push(("my-ext-1".into(), ExtensionValue::String("value1".into())));
    input.datacontenttype = Some("application/json".into());
    input.data = Some(Data::Json(JsonValue::Object(vec![])));

    let mut expected = event("id1", "type", "source", "chan1");
    expected.datacontenttype = Some("application/json".into());
    expected.dataschema = Some("urn:my:schema".into());
    expected.data = Some(Data::Json(JsonValue::Object(vec![])));

    assert_eq!(run_local(&processor, input), Ok(Outcome::Accepted(expected)));
}

#[test]
fn process_test_default() {
    default_case();
}

#[test]
fn process_test_s1() {
    s1_case();
}

#[test]
fn mod_test_default() {
    default_case();
}

#[test]
fn mod_test_s1() {
    s1_case();
}

#[test]
fn conditions_select_rules() {
    let processor = Processor::new(vec![
        Rule {
            when: When::And(vec![]),
            steps: vec![Step::Drop],
        },
        Rule {
            when: When::Or(vec![When::IsChannel("a".into()), When::IsChannel("b".into())]),
            steps: vec![Step::Reject("no b".into())],
        },
        Rule {
            when: When::Not(Box::new(When::IsChannel("c".into()))),
            steps: vec![Step::Drop],
        },
    ]);
    assert_eq!(
        run_local(&processor, event("1", "t", "s", "b")),
        Ok(Outcome::Rejected("no b".into()))
    );
    // `Not` inverts its condition
    assert_eq!(
        run_local(&processor, event("1", "t", "s", "c")),
        Ok(Outcome::Accepted(event("1", "t", "s", "c")))
    );
    assert_eq!(
        run_local(&processor, event("1", "t", "s", "d")),
        Ok(Outcome::Dropped)
    );
    let never = Processor::new(vec![Rule {
        when: When::Not(Box::new(When::Always)),
        steps: vec![Step::Drop],
    }]);
    assert_eq!(
        run_local(&never, event("1", "t", "s", "c")),
        Ok(Outcome::Accepted(event("1", "t", "s", "c")))
    );
}

#[test]
fn unmatched_events_pass_unchanged() {
    let processor = Processor::new(vec![
        Rule {
            when: When::IsChannel("x".into()),
            steps: vec![Step::Validate(ValidateSpec {
                endpoint: endpoint("http://localhost/validate"),
                request: RequestType::CloudEvent { mode: ContentMode::Binary },
            })],
        },
        Rule { when: When::Or(vec![]), steps: vec![Step::Drop] },
    ]);
    let mut input = event("7", "t", "s", "y");
    input.extensions.push(("e".into(), ExtensionValue::Boolean(true)));
    let mut expected = event("7", "t", "s", "y");
    expected.extensions.push(("e".into(), ExtensionValue::Boolean(true)));
    assert_eq!(run_local(&processor, input), Ok(Outcome::Accepted(expected)));
}

#[test]
fn break_accepts_and_stops() {
    let processor = Processor::new(vec![
        Rule {
            when: When::Always,
            steps: vec![
                Step::SetExtension { name: "x".into(), value: "1".into() },
                Step::Break,
                Step::Drop,
            ],
        },
        Rule { when: When::Always, steps: vec![Step::Drop] },
    ]);
    let mut expected = event("1", "t", "s", "c");
    expected.extensions.push(("x".into(), ExtensionValue::String("1".into())));
    assert_eq!(
        run_local(&processor, event("1", "t", "s", "c")),
        Ok(Outcome::Accepted(expected))
    );
}

#[test]
fn attributes_errors() {
    let e = event("1", "t", "s", "c");
    assert_eq!(
        set_attribute(e, "type", None),
        Err(ProcessError::Config("Removing the 'type' attribute is not valid".into()))
    );
    let e = event("1", "t", "s", "c");
    assert_eq!(
        set_attribute(e, "id", Some("2")),
        Err(ProcessError::Config("Unknown or immutable attribute: id".into()))
    );
    let e = event("1", "t", "s", "c");
    match set_attribute(e, "dataschema", Some("not a url")) {
        Err(ProcessError::Config(m)) => assert!(m.starts_with("Invalid URL: ")),
        other => panic!("unexpected {:?}", other),
    }
    let e = event("1", "t", "s", "c");
    let e = set_attribute(e, "subject", None).unwrap();
    assert_eq!(e.subject, None);
    let e = set_attribute(e, "type", Some("t2")).unwrap();
    assert_eq!(e.ty, "t2");
    let e = set_attribute(e, "dataschema", Some("https://foo.bar")).unwrap();
    assert_eq!(e.dataschema.as_deref(), Some("https://foo.bar/"));
}

#[test]
fn external_steps_wait_for_their_endpoint() {
    let processor = Processor::new(vec![Rule {
        when: When::Always,
        steps: vec![
            Step::SetExtension { name: "a".into(), value: "b".into() },
            Step::Validate(ValidateSpec {
                endpoint: endpoint("https://example.com/validate"),
                request: RequestType::CloudEvent { mode: ContentMode::Binary },
            }),
            Step::Reject("after".into()),
        ],
    }]);
    let pending = match processor.start(event("1", "t", "s", "c")) {
        Action::External(p) => p,
        Action::Finished(r) => panic!("unexpected {:?}", r),
    };
    assert_eq!(pending.event().extensions.len(), 1);
    let (at, ev) = pending.into_parts();
    assert!(matches!(processor.pending_step(&at), Step::Validate(_)));

    match validate_reply(202, None, ev) {
        ValidateNext::Done(Ok(StepOutcome::Accept(e))) => {
            match processor.resume(at, Ok(StepOutcome::Accept(e))) {
                Action::Finished(Ok(Outcome::Accepted(e))) => assert_eq!(e.extensions.len(), 1),
                other => panic!("unexpected {:?}", other),
            }
        }
        other => panic!("unexpected {:?}", other),
    }
}

#[test]
fn continuing_after_an_external_step_runs_the_rest() {
    let processor = Processor::new(vec![Rule {
        when: When::Always,
        steps: vec![
            Step::Enrich(EnrichSpec {
                endpoint: endpoint("https://example.com/enrich"),
                request: RequestType::CloudEvent { mode: ContentMode::Structured },
                response: ResponseType::Raw,
            }),
            Step::Reject("after".into()),
        ],
    }]);
    let pending = match processor.start(event("1", "t", "s", "c")) {
        Action::External(p) => p,
        Action::Finished(r) => panic!("unexpected {:?}", r),
    };
    let (at, ev) = pending.into_parts();
    let next = match enrich_reply(ResponseType::Raw, 200, ev) {
        EnrichNext::ReadData(e) => enriched_data(e, None, Ok(vec![1, 2])),
        other => panic!("unexpected {:?}", other),
    };
    match &next {
        Ok(StepOutcome::Continue(e)) => {
            assert_eq!(e.datacontenttype.as_deref(), Some("application/octet-stream"));
            assert_eq!(e.data, Some(Data::Binary(vec![1, 2])));
        }
        other => panic!("unexpected {:?}", other),
    }
    match processor.resume(at, next) {
        Action::Finished(Ok(Outcome::Rejected(r))) => assert_eq!(r, "after"),
        other => panic!("unexpected {:?}", other),
    }
}

#[test]
fn validation_replies() {
    let e = event("1", "t", "s", "c");
    assert!(matches!(
        validate_reply(200, None, e),
        ValidateNext::Done(Ok(StepOutcome::Continue(_)))
    ));
    let e = event("1", "t", "s", "c");
    assert!(matches!(
        validate_reply(204, None, e),
        ValidateNext::Done(Ok(StepOutcome::Continue(_)))
    ));
    let e = event("1", "t", "s", "c");
    assert!(matches!(
        validate_reply(403, Some("application/json; charset=utf-8"), e),
        ValidateNext::RejectWithJsonReason
    ));
    let e = event("1", "t", "s", "c");
    assert!(matches!(
        validate_reply(400, Some("text/plain"), e),
        ValidateNext::RejectWithText
    ));
    let e = event("1", "t", "s", "c");
    match validate_reply(500, None, e) {
        ValidateNext::Done(Err(ProcessError::ExternalResponse(m))) => {
            assert_eq!(m, "Unexpected endpoint response: 500 Internal Server Error")
        }
        other => panic!("unexpected {:?}", other),
    }
    assert_eq!(
        json_rejection(Ok(JsonValue::Object(vec![(
            "reason".into(),
            JsonValue::String("too hot".into())
        )]))),
        Ok(StepOutcome::Reject("too hot".into()))
    );
    assert_eq!(
        json_rejection(Ok(JsonValue::Null)),
        Ok(StepOutcome::Reject("Rejected".into()))
    );
    assert_eq!(
        json_rejection(Err("eof".into())),
        Err(ProcessError::ExternalEndpoint("Request error: eof".into()))
    );
    assert_eq!(
        text_rejection(Ok("nope".into())),
        Ok(StepOutcome::Reject("nope".into()))
    );
}

#[test]
fn enrich_replies() {
    let e = event("1", "t", "s", "c");
    match enrich_reply(ResponseType::CloudEvent, 404, e) {
        EnrichNext::Done(Err(ProcessError::ExternalResponse(m))) => {
            assert_eq!(m, "Unexpected endpoint response: 404 Not Found")
        }
        other => panic!("unexpected {:?}", other),
    }
    let e = event("1", "t", "s", "c");
    assert!(matches!(
        enrich_reply(ResponseType::AssumeStructuredCloudEvent, 200, e),
        EnrichNext::ReadStructuredEvent
    ));
    assert_eq!(
        enriched_event(Err(ReadError::Event("bad".into()))),
        Err(ProcessError::Event("bad".into()))
    );
    assert_eq!(
        enriched_event(Ok(event("2", "t", "s", "c"))),
        Ok(StepOutcome::Continue(event("2", "t", "s", "c")))
    );
}

#[test]
fn extensions_read_back() {
    let mut e = event("1", "t", "s", "c");
    e.set_extension("a", ExtensionValue::String("1".into()));
    e.set_extension("b", ExtensionValue::Integer(2));
    assert_eq!(e.extension("a"), Some(&ExtensionValue::String("1".into())));
    e.set_extension("a", ExtensionValue::Boolean(true));
    assert_eq!(e.extension("a"), Some(&ExtensionValue::Boolean(true)));
    assert_eq!(e.extension("b"), Some(&ExtensionValue::Integer(2)));
    // setting an existing name keeps its place
    assert_eq!(e.extensions[0].0, "a");
    assert_eq!(e.extensions.len(), 2);
    e.extensions.push(("a".into(), ExtensionValue::Integer(9)));
    e.remove_extension("a");
    assert_eq!(e.extension("a"), None);
    assert_eq!(e.extension("b"), Some(&ExtensionValue::Integer(2)));
    assert_eq!(e.extensions.len(), 1);
    assert_eq!(e.extension("c"), None);
}

#[test]
fn processors_by_direction() {
    let drop = || Some(Ok(vec![Rule { when: When::Always, steps: vec![Step::Drop] }]));
    let p = Processor::for_direction(Direction::Downstream, None, drop()).unwrap();
    assert_eq!(p.rules.len(), 1);
    let p = Processor::for_direction(Direction::Upstream, None, drop()).unwrap();
    assert!(p.rules.is_empty());
    let p = Processor::for_direction(Direction::Upstream, drop(), None).unwrap();
    assert_eq!(run_local(&p, event("1", "t", "s", "c")), Ok(Outcome::Dropped));
    assert_eq!(
        Processor::for_direction(Direction::Downstream, drop(), Some(Err("bad spec".into()))).err(),
        Some("bad spec".to_string())
    );
}
