//! The publish/command rules engine: rules whose condition matches an event run their
//! steps on it, in order, until one of them accepts, rejects or drops it.
//!
//! Steps that ask an external endpoint (validate, enrich) are not run here: the engine
//! stops at such a step and hands it out as a [`Pending`] action; the caller performs the
//! request and resumes the engine with what the step gave.
use crate::event::{
    extension_of, lemma_extension_reads_back, lemma_removed_extension_absent, with_extension, without_extension, Event, EventModel, ExtensionValue, ExtensionValueModel,
};
use crate::event::{Data, DataModel};
use crate::json::{as_str, member_or_none, JsonValue};
use crate::sender::{is_json, is_json_type};
use crate::status::{status_display, status_text};
use crate::text::{concat, str_is};
use crate::urls::{parse_url, url_parsed};
use vstd::prelude::*;

verus! {

broadcast use vstd::std_specs::vec::group_vec_axioms;

/// The condition of a rule.
#[derive(Debug, PartialEq, Eq)]
pub enum When {
    /// Always matches.
    Always,
    /// Matches when the inner condition does not.
    Not(Box<When>),
    /// Matches when there is at least one condition and all of them match.
    And(Vec<When>),
    /// Matches when any of the conditions matches.
    Or(Vec<When>),
    /// Matches when the subject (channel) of the event is this one.
    IsChannel(String),
}

/// The view of an optional string.
pub open spec fn opt_chars(o: Option<&str>) -> Option<Seq<char>> {
    match o {
        Some(s) => Some(s@),
        None => None,
    }
}

/// Whether `cond` matches an event with this subject.
pub open spec fn when_matches(cond: When, subject: Option<Seq<char>>) -> bool
    decreases cond,
{
    match cond {
        When::Always => true,
        When::Not(inner) => !when_matches(*inner, subject),
        When::And(all) => {
            proof {
                assert(decreases_to!(cond => cond->And_0));
                assert(decreases_to!(all => all@));
            }
            all@.len() > 0 && all_match(all@, subject)
        },
        When::Or(any) => {
            proof {
                assert(decreases_to!(cond => cond->Or_0));
                assert(decreases_to!(any => any@));
            }
            any_match(any@, subject)
        },
        When::IsChannel(channel) => subject == Some(channel@),
    }
}

/// Whether every condition of `conds` matches.
pub open spec fn all_match(conds: Seq<When>, subject: Option<Seq<char>>) -> bool
    decreases conds,
{
    if conds.len() == 0 {
        true
    } else {
        all_match(conds.subrange(0, conds.len() - 1), subject) && when_matches(
            conds[conds.len() - 1],
            subject,
        )
    }
}

/// Whether some condition of `conds` matches.
pub open spec fn any_match(conds: Seq<When>, subject: Option<Seq<char>>) -> bool
    decreases conds,
{
    if conds.len() == 0 {
        false
    } else {
        any_match(conds.subrange(0, conds.len() - 1), subject) || when_matches(
            conds[conds.len() - 1],
            subject,
        )
    }
}

/// A condition in `conds` that fails makes every longer prefix fail as well.
proof fn lemma_all_match_prefix(conds: Seq<When>, subject: Option<Seq<char>>, i: int)
    requires
        0 <= i < conds.len(),
        !when_matches(conds[i], subject),
    ensures
        !all_match(conds, subject),
    decreases conds.len(),
{
    if i < conds.len() - 1 {
        lemma_all_match_prefix(conds.subrange(0, conds.len() - 1), subject, i);
    }
}

/// A condition in `conds` that matches makes every longer prefix match as well.
proof fn lemma_any_match_prefix(conds: Seq<When>, subject: Option<Seq<char>>, i: int)
    requires
        0 <= i < conds.len(),
        when_matches(conds[i], subject),
    ensures
        any_match(conds, subject),
    decreases conds.len(),
{
    if i < conds.len() - 1 {
        lemma_any_match_prefix(conds.subrange(0, conds.len() - 1), subject, i);
    }
}

/// `all_match` holds exactly when each of the conditions matches.
proof fn lemma_all_match_each(conds: Seq<When>, subject: Option<Seq<char>>)
    ensures
        all_match(conds, subject) <==> forall|i: int|
            0 <= i < conds.len() ==> when_matches(#[trigger] conds[i], subject),
    decreases conds.len(),
{
    if conds.len() > 0 {
        let p = conds.subrange(0, conds.len() - 1);
        lemma_all_match_each(p, subject);
        assert forall|i: int| 0 <= i < p.len() implies p[i] == conds[i] by {}
        if forall|i: int| 0 <= i < conds.len() ==> when_matches(#[trigger] conds[i], subject) {
            assert forall|i: int| 0 <= i < p.len() implies when_matches(#[trigger] p[i], subject) by {
                assert(p[i] == conds[i]);
            }
        }
        if all_match(conds, subject) {
            assert forall|i: int| 0 <= i < conds.len() implies when_matches(#[trigger] conds[i], subject) by {
                if i < conds.len() - 1 {
                    assert(p[i] == conds[i]);
                }
            }
        }
    }
}

/// `any_match` holds exactly when some condition matches.
proof fn lemma_any_match_some(conds: Seq<When>, subject: Option<Seq<char>>)
    ensures
        any_match(conds, subject) <==> exists|i: int|
            0 <= i < conds.len() && when_matches(#[trigger] conds[i], subject),
    decreases conds.len(),
{
    if conds.len() > 0 {
        let p = conds.subrange(0, conds.len() - 1);
        lemma_any_match_some(p, subject);
        if any_match(conds, subject) {
            if any_match(p, subject) {
                let i = choose|i: int| 0 <= i < p.len() && when_matches(#[trigger] p[i], subject);
                assert(p[i] == conds[i]);
            } else {
                assert(when_matches(conds[conds.len() - 1], subject));
            }
        }
        if exists|i: int| 0 <= i < conds.len() && when_matches(#[trigger] conds[i], subject) {
            let i = choose|i: int| 0 <= i < conds.len() && when_matches(#[trigger] conds[i], subject);
            if i < conds.len() - 1 {
                assert(p[i] == conds[i]);
            }
        }
    }
}

/// What each kind of condition means for an event with this subject: `Always` matches;
/// `Not` matches exactly when its inner condition does not; `And` matches exactly when it
/// has at least one child and every child matches; `Or` matches exactly when some child
/// matches; `IsChannel` matches exactly when the subject is that channel.
pub proof fn law_condition_meaning(cond: When, subject: Option<Seq<char>>)
    ensures
        match cond {
            When::Always => when_matches(cond, subject),
            When::Not(inner) => when_matches(cond, subject) == !when_matches(*inner, subject),
            When::And(all) => when_matches(cond, subject) == (all@.len() > 0 && forall|i: int|
                0 <= i < all@.len() ==> when_matches(#[trigger] all@[i], subject)),
            When::Or(any) => when_matches(cond, subject) == exists|i: int|
                0 <= i < any@.len() && when_matches(#[trigger] any@[i], subject),
            When::IsChannel(c) => when_matches(cond, subject) == (subject == Some(c@)),
        },
{
    match cond {
        When::And(all) => lemma_all_match_each(all@, subject),
        When::Or(any) => lemma_any_match_some(any@, subject),
        _ => {},
    }
}

/// Evaluates a condition against the subject of an event.
pub fn is_when(cond: &When, subject: Option<&str>) -> (r: bool)
    ensures
        r == when_matches(*cond, opt_chars(subject)),
    decreases cond,
{
    match cond {
        When::Always => true,
        When::Not(inner) => !is_when(inner, subject),
        When::And(all) => {
            if all.len() == 0 {
                return false;
            }
            let mut i: usize = 0;
            while i < all.len()
                invariant
                    *cond == When::And(*all),
                    i <= all@.len(),
                    all_match(all@.take(i as int), opt_chars(subject)),
                decreases all@.len() - i,
            {
                proof {
                    assert(decreases_to!(*cond => (*cond)->And_0));
                    assert(decreases_to!(*all => all@));
                    assert(decreases_to!(all@ => all@[i as int]));
                }
                if !is_when(&all[i], subject) {
                    proof {
                        lemma_all_match_prefix(all@, opt_chars(subject), i as int);
                    }
                    return false;
                }
                assert(all@.take(i + 1).subrange(0, i as int) =~= all@.take(i as int));
                i += 1;
            }
            assert(all@.take(i as int) =~= all@);
            true
        },
        When::Or(any) => {
            let mut i: usize = 0;
            while i < any.len()
                invariant
                    *cond == When::Or(*any),
                    i <= any@.len(),
                    !any_match(any@.take(i as int), opt_chars(subject)),
                decreases any@.len() - i,
            {
                proof {
                    assert(decreases_to!(*cond => (*cond)->Or_0));
                    assert(decreases_to!(*any => any@));
                    assert(decreases_to!(any@ => any@[i as int]));
                }
                if is_when(&any[i], subject) {
                    proof {
                        lemma_any_match_prefix(any@, opt_chars(subject), i as int);
                    }
                    return true;
                }
                assert(any@.take(i + 1).subrange(0, i as int) =~= any@.take(i as int));
                i += 1;
            }
            assert(any@.take(i as int) =~= any@);
            false
        },
        When::IsChannel(channel) => match subject {
            Some(s) => str_is(channel.as_str(), s),
            None => false,
        },
    }
}


/// How an event goes to an external endpoint.
#[derive(Debug, Clone, Copy, PartialEq, Eq)]
pub enum ContentMode {
    Binary,
    Structured,
}

/// What is sent to an external endpoint.
#[derive(Debug, Clone, Copy, PartialEq, Eq)]
pub enum RequestType {
    CloudEvent { mode: ContentMode },
}

/// How the reply of an enriching endpoint is read.
#[derive(Debug, Clone, Copy, PartialEq, Eq)]
pub enum ResponseType {
    /// A cloud event, in binary or structured mode.
    CloudEvent,
    /// A cloud event in structured mode.
    AssumeStructuredCloudEvent,
    /// Raw data, which becomes the data of the event.
    Raw,
}

/// A header added to an external request.
#[derive(Debug, PartialEq, Eq)]
pub struct Header {
    pub name: String,
    pub value: String,
}

/// How a request authenticates towards an external endpoint.
#[derive(Debug, PartialEq, Eq)]
pub enum Authentication {
    /// No credentials.
    Anonymous,
    Basic { username: String, password: Option<String> },
    Bearer { token: String },
}

/// TLS settings of an external endpoint.
#[derive(Clone, Debug, PartialEq, Eq, Hash)]
pub struct TlsOptions {
    pub insecure: bool,
    pub certificate: Option<String>,
}

/// An external endpoint.
#[derive(Debug, PartialEq, Eq)]
pub struct ExternalEndpoint {
    /// The HTTP method; `POST` where there is none.
    pub method: Option<String>,
    pub url: String,
    pub tls: Option<TlsOptions>,
    pub auth: Authentication,
    pub headers: Vec<Header>,
    /// The timeout in milliseconds; five seconds where there is none.
    pub timeout_ms: Option<u64>,
}

/// A step that asks an endpoint whether an event may pass.
#[derive(Debug, PartialEq, Eq)]
pub struct ValidateSpec {
    pub endpoint: ExternalEndpoint,
    pub request: RequestType,
}

/// A step that asks an endpoint for a new form of the event.
#[derive(Debug, PartialEq, Eq)]
pub struct EnrichSpec {
    pub endpoint: ExternalEndpoint,
    pub request: RequestType,
    pub response: ResponseType,
}

/// A step of a rule.
#[derive(Debug, PartialEq, Eq)]
pub enum Step {
    /// Drop the event (it counts as accepted).
    Drop,
    /// Accept the event as it is, running no further step or rule.
    Break,
    /// Reject the event with this reason.
    Reject(String),
    /// Set an attribute of the event.
    SetAttribute { name: String, value: String },
    /// Remove an attribute of the event.
    RemoveAttribute(String),
    /// Set a string extension of the event.
    SetExtension { name: String, value: String },
    /// Remove an extension of the event.
    RemoveExtension(String),
    /// Ask an external endpoint to validate the event.
    Validate(ValidateSpec),
    /// Ask an external endpoint to enrich the event.
    Enrich(EnrichSpec),
}

/// A rule: when its condition matches, its steps run.
#[derive(Debug, PartialEq, Eq)]
pub struct Rule {
    pub when: When,
    pub steps: Vec<Step>,
}

/// A step that needs an external endpoint.
pub open spec fn is_external(step: Step) -> bool {
    step is Validate || step is Enrich
}

/// An error while processing an event.
#[derive(Debug, PartialEq, Eq)]
pub enum ProcessError {
    /// The rules are not valid.
    Config(String),
    /// An external endpoint could not be reached or its reply not be read.
    ExternalEndpoint(String),
    /// An external endpoint replied in a way that the step does not accept.
    ExternalResponse(String),
    /// The reply of an external endpoint holds no valid cloud event.
    Event(String),
}

/// The mathematical value of a [`ProcessError`].
pub enum ProcessErrorModel {
    Config(Seq<char>),
    ExternalEndpoint(Seq<char>),
    ExternalResponse(Seq<char>),
    Event(Seq<char>),
}

impl View for ProcessError {
    type V = ProcessErrorModel;

    open spec fn view(&self) -> ProcessErrorModel {
        match self {
            ProcessError::Config(m) => ProcessErrorModel::Config(m@),
            ProcessError::ExternalEndpoint(m) => ProcessErrorModel::ExternalEndpoint(m@),
            ProcessError::ExternalResponse(m) => ProcessErrorModel::ExternalResponse(m@),
            ProcessError::Event(m) => ProcessErrorModel::Event(m@),
        }
    }
}

/// What a step does with an event.
#[derive(Debug, PartialEq, Eq)]
pub enum StepOutcome {
    /// Go on with the next step, with this event.
    Continue(Event),
    /// Stop; the event is accepted in this form.
    Accept(Event),
    /// Stop; the event is rejected with this reason.
    Reject(String),
    /// Stop; the event is dropped.
    Drop,
}

/// The mathematical value of a [`StepOutcome`].
pub enum StepOutcomeModel {
    Continue(EventModel),
    Accept(EventModel),
    Reject(Seq<char>),
    Drop,
}

impl View for StepOutcome {
    type V = StepOutcomeModel;

    open spec fn view(&self) -> StepOutcomeModel {
        match self {
            StepOutcome::Continue(e) => StepOutcomeModel::Continue(e@),
            StepOutcome::Accept(e) => StepOutcomeModel::Accept(e@),
            StepOutcome::Reject(r) => StepOutcomeModel::Reject(r@),
            StepOutcome::Drop => StepOutcomeModel::Drop,
        }
    }
}

/// What processing decided about an event.
#[derive(Debug, PartialEq, Eq)]
pub enum Outcome {
    /// The event is accepted, in this form.
    Accepted(Event),
    /// The event is rejected, for this reason.
    Rejected(String),
    /// The event is dropped silently (and reported as accepted).
    Dropped,
}

/// The mathematical value of an [`Outcome`].
pub enum OutcomeModel {
    Accepted(EventModel),
    Rejected(Seq<char>),
    Dropped,
}

impl View for Outcome {
    type V = OutcomeModel;

    open spec fn view(&self) -> OutcomeModel {
        match self {
            Outcome::Accepted(e) => OutcomeModel::Accepted(e@),
            Outcome::Rejected(r) => OutcomeModel::Rejected(r@),
            Outcome::Dropped => OutcomeModel::Dropped,
        }
    }
}

/// The view of a step's result.
pub open spec fn step_result_view(r: Result<StepOutcome, ProcessError>) -> Result<
    StepOutcomeModel,
    ProcessErrorModel,
> {
    match r {
        Ok(o) => Ok(o@),
        Err(e) => Err(e@),
    }
}

/// The view of a processing result.
pub open spec fn outcome_view(r: Result<Outcome, ProcessError>) -> Result<
    OutcomeModel,
    ProcessErrorModel,
> {
    match r {
        Ok(o) => Ok(o@),
        Err(e) => Err(e@),
    }
}

/// Setting (`Some`) or removing (`None`) an attribute of an event by its name.
pub open spec fn attribute_set(ev: EventModel, name: Seq<char>, value: Option<Seq<char>>) -> Result<
    EventModel,
    ProcessErrorModel,
> {
    if name == "datacontenttype"@ {
        Ok(EventModel { datacontenttype: value, ..ev })
    } else if name == "dataschema"@ {
        match value {
            None => Ok(EventModel { dataschema: None, ..ev }),
            Some(v) => match url_parsed(v) {
                Ok(url) => Ok(EventModel { dataschema: Some(url), ..ev }),
                Err(e) => Err(ProcessErrorModel::Config("Invalid URL: "@ + e)),
            },
        }
    } else if name == "subject"@ {
        Ok(EventModel { subject: value, ..ev })
    } else if name == "type"@ {
        match value {
            Some(v) => Ok(EventModel { ty: v, ..ev }),
            None => Err(ProcessErrorModel::Config("Removing the 'type' attribute is not valid"@)),
        }
    } else {
        Err(ProcessErrorModel::Config("Unknown or immutable attribute: "@ + name))
    }
}

/// What a step that needs no external endpoint does with an event.
pub open spec fn local_step(step: Step, ev: EventModel) -> Result<StepOutcomeModel, ProcessErrorModel> {
    match step {
        Step::Drop => Ok(StepOutcomeModel::Drop),
        Step::Break => Ok(StepOutcomeModel::Accept(ev)),
        Step::Reject(reason) => Ok(StepOutcomeModel::Reject(reason@)),
        Step::SetAttribute { name, value } => match attribute_set(ev, name@, Some(value@)) {
            Ok(e) => Ok(StepOutcomeModel::Continue(e)),
            Err(err) => Err(err),
        },
        Step::RemoveAttribute(name) => match attribute_set(ev, name@, None) {
            Ok(e) => Ok(StepOutcomeModel::Continue(e)),
            Err(err) => Err(err),
        },
        Step::SetExtension { name, value } => Ok(
            StepOutcomeModel::Continue(
                EventModel {
                    extensions: with_extension(
                        ev.extensions,
                        name@,
                        ExtensionValueModel::String(value@),
                    ),
                    ..ev
                },
            ),
        ),
        Step::RemoveExtension(name) => Ok(
            StepOutcomeModel::Continue(
                EventModel { extensions: without_extension(ev.extensions, name@), ..ev },
            ),
        ),
        Step::Validate(_) | Step::Enrich(_) => Ok(StepOutcomeModel::Continue(ev)),
    }
}

/// Sets (`Some`) or removes (`None`) an attribute of an event by its name.
pub fn set_attribute(event: Event, name: &str, value: Option<&str>) -> (r: Result<Event, ProcessError>)
    ensures
        match r {
            Ok(e) => attribute_set(event@, name@, opt_chars(value)) == Ok::<
                EventModel,
                ProcessErrorModel,
            >(e@),
            Err(err) => attribute_set(event@, name@, opt_chars(value)) == Err::<
                EventModel,
                ProcessErrorModel,
            >(err@),
        },
{
    let mut event = event;
    if str_is(name, "datacontenttype") {
        event.datacontenttype = match value {
            Some(v) => Some(v.to_owned()),
            None => None,
        };
        Ok(event)
    } else if str_is(name, "dataschema") {
        match value {
            None => {
                event.dataschema = None;
                Ok(event)
            },
            Some(v) => match parse_url(v) {
                Ok(url) => {
                    event.dataschema = Some(url);
                    Ok(event)
                },
                Err(e) => Err(ProcessError::Config(concat("Invalid URL: ", e.as_str()))),
            },
        }
    } else if str_is(name, "subject") {
        event.subject = match value {
            Some(v) => Some(v.to_owned()),
            None => None,
        };
        Ok(event)
    } else if str_is(name, "type") {
        match value {
            Some(v) => {
                event.ty = v.to_owned();
                Ok(event)
            },
            None => Err(
                ProcessError::Config("Removing the 'type' attribute is not valid".to_owned()),
            ),
        }
    } else {
        Err(ProcessError::Config(concat("Unknown or immutable attribute: ", name)))
    }
}


/// Runs a step that needs no external endpoint.
pub fn apply_local(step: &Step, event: Event) -> (r: Result<StepOutcome, ProcessError>)
    requires
        !is_external(*step),
    ensures
        step_result_view(r) == local_step(*step, event@),
{
    match step {
        Step::Drop => Ok(StepOutcome::Drop),
        Step::Break => Ok(StepOutcome::Accept(event)),
        Step::Reject(reason) => Ok(StepOutcome::Reject(reason.clone())),
        Step::SetAttribute { name, value } => match set_attribute(
            event,
            name.as_str(),
            Some(value.as_str()),
        ) {
            Ok(e) => Ok(StepOutcome::Continue(e)),
            Err(err) => Err(err),
        },
        Step::RemoveAttribute(name) => match set_attribute(event, name.as_str(), None) {
            Ok(e) => Ok(StepOutcome::Continue(e)),
            Err(err) => Err(err),
        },
        Step::SetExtension { name, value } => {
            let mut event = event;
            event.set_extension(name.as_str(), ExtensionValue::String(value.clone()));
            Ok(StepOutcome::Continue(event))
        },
        Step::RemoveExtension(name) => {
            let mut event = event;
            event.remove_extension(name.as_str());
            Ok(StepOutcome::Continue(event))
        },
        Step::Validate(_) | Step::Enrich(_) => Ok(StepOutcome::Continue(event)),
    }
}

/// What the external endpoints answer: the result of an external step for an event.
pub type Answers = spec_fn(Step, EventModel) -> Result<StepOutcomeModel, ProcessErrorModel>;

/// The result of a step: its own for a local step, the endpoint's for an external one.
pub open spec fn step_result(step: Step, ev: EventModel, answers: Answers) -> Result<
    StepOutcomeModel,
    ProcessErrorModel,
> {
    if is_external(step) {
        answers(step, ev)
    } else {
        local_step(step, ev)
    }
}

/// Processing from rule `r` on, starting with its condition.
pub open spec fn rules_from(rules: Seq<Rule>, r: int, ev: EventModel, answers: Answers) -> Result<
    OutcomeModel,
    ProcessErrorModel,
>
    decreases rules.len() - r, rules[r].steps@.len() + 1,
{
    if r < 0 || r >= rules.len() {
        Ok(OutcomeModel::Accepted(ev))
    } else if when_matches(rules[r].when, ev.subject) {
        continue_at(rules, r, 0, ev, answers)
    } else {
        rules_from(rules, r + 1, ev, answers)
    }
}

/// Processing from step `s` of rule `r` on (the rule's condition matched), then the rules
/// after it.
pub open spec fn continue_at(
    rules: Seq<Rule>,
    r: int,
    s: int,
    ev: EventModel,
    answers: Answers,
) -> Result<OutcomeModel, ProcessErrorModel>
    decreases rules.len() - r, rules[r].steps@.len() - s,
{
    if r < 0 || r >= rules.len() || s < 0 {
        Ok(OutcomeModel::Accepted(ev))
    } else if s >= rules[r].steps@.len() {
        rules_from(rules, r + 1, ev, answers)
    } else {
        match step_result(rules[r].steps@[s], ev, answers) {
            Err(e) => Err(e),
            Ok(StepOutcomeModel::Continue(next)) => continue_at(rules, r, s + 1, next, answers),
            Ok(StepOutcomeModel::Accept(e)) => Ok(OutcomeModel::Accepted(e)),
            Ok(StepOutcomeModel::Reject(reason)) => Ok(OutcomeModel::Rejected(reason)),
            Ok(StepOutcomeModel::Drop) => Ok(OutcomeModel::Dropped),
        }
    }
}

/// Processing an event with a list of rules, the endpoints answering as `answers` says.
pub open spec fn processed(rules: Seq<Rule>, ev: EventModel, answers: Answers) -> Result<
    OutcomeModel,
    ProcessErrorModel,
> {
    rules_from(rules, 0, ev, answers)
}

/// Processing after step `s` of rule `r` gave `result`.
pub open spec fn after_step(
    rules: Seq<Rule>,
    r: int,
    s: int,
    result: Result<StepOutcomeModel, ProcessErrorModel>,
    answers: Answers,
) -> Result<OutcomeModel, ProcessErrorModel> {
    match result {
        Err(e) => Err(e),
        Ok(StepOutcomeModel::Continue(next)) => continue_at(rules, r, s + 1, next, answers),
        Ok(StepOutcomeModel::Accept(e)) => Ok(OutcomeModel::Accepted(e)),
        Ok(StepOutcomeModel::Reject(reason)) => Ok(OutcomeModel::Rejected(reason)),
        Ok(StepOutcomeModel::Drop) => Ok(OutcomeModel::Dropped),
    }
}

/// Processing from a point of the rules: from step `s` of rule `r` when `in_rule`, else from
/// the condition of rule `r`.
pub open spec fn from_point(
    rules: Seq<Rule>,
    r: int,
    s: int,
    in_rule: bool,
    ev: EventModel,
    answers: Answers,
) -> Result<OutcomeModel, ProcessErrorModel> {
    if in_rule {
        continue_at(rules, r, s, ev, answers)
    } else {
        rules_from(rules, r, ev, answers)
    }
}

/// The position of a step in the rules: the index of its rule, and its index there.
#[derive(Debug, Clone, Copy, PartialEq, Eq)]
pub struct StepPosition {
    rule: usize,
    step: usize,
}

impl StepPosition {
    /// The index of the rule.
    pub closed spec fn rule_index(&self) -> int {
        self.rule as int
    }

    /// The index of the step within its rule.
    pub closed spec fn step_index(&self) -> int {
        self.step as int
    }
}

/// An external step, reached while processing an event, which waits for its endpoint.
#[derive(Debug)]
pub struct Pending {
    at: StepPosition,
    event: Event,
}

impl Pending {
    /// Where the step is.
    pub closed spec fn position(&self) -> StepPosition {
        self.at
    }

    /// The event as it reached the step.
    pub closed spec fn event_model(&self) -> EventModel {
        self.event@
    }

    /// The event as it reached the step.
    pub fn event(&self) -> (r: &Event)
        ensures
            r@ == self.event_model(),
    {
        &self.event
    }

    /// The position of the step and the event, to send it and then resume.
    pub fn into_parts(self) -> (r: (StepPosition, Event))
        ensures
            r.0 == self.position(),
            r.1@ == self.event_model(),
    {
        (self.at, self.event)
    }
}

/// What processing asks of its caller next.
#[derive(Debug)]
pub enum Action {
    /// Processing is done, with this result.
    Finished(Result<Outcome, ProcessError>),
    /// Processing waits for an external step.
    External(Pending),
}

/// A step of the rules that waits for its endpoint at this position.
pub open spec fn awaits(rules: Seq<Rule>, p: StepPosition) -> bool {
    &&& 0 <= p.rule_index() < rules.len()
    &&& 0 <= p.step_index() < rules[p.rule_index()].steps@.len()
    &&& is_external(rules[p.rule_index()].steps@[p.step_index()])
}

/// The result that an action leads to, the endpoints answering as `answers` says.
pub open spec fn action_result(rules: Seq<Rule>, a: Action, answers: Answers) -> Result<
    OutcomeModel,
    ProcessErrorModel,
> {
    match a {
        Action::Finished(r) => outcome_view(r),
        Action::External(p) => after_step(
            rules,
            p.position().rule_index(),
            p.position().step_index(),
            answers(
                rules[p.position().rule_index()].steps@[p.position().step_index()],
                p.event_model(),
            ),
            answers,
        ),
    }
}

/// An action that, where it waits, waits at an external step of the rules.
pub open spec fn action_valid(rules: Seq<Rule>, a: Action) -> bool {
    a is External ==> awaits(rules, a->External_0.position())
}

/// Runs the rules on an event.
pub struct Processor {
    pub rules: Vec<Rule>,
}

impl Processor {
    /// A processor for this list of rules.
    pub fn new(rules: Vec<Rule>) -> (r: Processor)
        ensures
            r.rules == rules,
    {
        Processor { rules }
    }

    /// The processor for events going in `direction`: the rules of the application's
    /// command spec for events to devices, those of its publish spec for events from
    /// devices; no rules where that spec is missing; the spec's error (its text) where it
    /// does not parse. Each spec is given as read from the application.
    pub fn for_direction(
        direction: crate::sender::Direction,
        command_spec: Option<Result<Vec<Rule>, String>>,
        publish_spec: Option<Result<Vec<Rule>, String>>,
    ) -> (r: Result<Processor, String>)
        ensures
            ({
                let spec = match direction {
                    crate::sender::Direction::Upstream => command_spec,
                    crate::sender::Direction::Downstream => publish_spec,
                };
                match spec {
                    None => r matches Ok(p) && p.rules@.len() == 0,
                    Some(Ok(rules)) => r matches Ok(p) && p.rules == rules,
                    Some(Err(e)) => r == Err::<Processor, String>(e),
                }
            }),
    {
        let spec = match direction {
            crate::sender::Direction::Upstream => command_spec,
            crate::sender::Direction::Downstream => publish_spec,
        };
        match spec {
            None => Ok(Processor { rules: Vec::new() }),
            Some(Ok(rules)) => Ok(Processor { rules }),
            Some(Err(e)) => Err(e),
        }
    }

    /// Runs from rule `r` (at its condition) or, when `in_rule`, from step `s` of rule `r`,
    /// until processing is done or reaches an external step.
    fn run(&self, rule: usize, step: usize, within: bool, start: Event) -> (a: Action)
        requires
            rule <= self.rules@.len(),
            within ==> rule < self.rules@.len() && step <= self.rules@[rule as int].steps@.len(),
        ensures
            action_valid(self.rules@, a),
            forall|answers: Answers|
                #![trigger action_result(self.rules@, a, answers)]
                action_result(self.rules@, a, answers) == from_point(
                    self.rules@,
                    rule as int,
                    step as int,
                    within,
                    start@,
                    answers,
                ),
    {
        let ghost rules = self.rules@;
        let ghost (r0, s0, in0, ev0) = (rule as int, step as int, within, start@);
        let mut r = rule;
        let mut s = step;
        let mut in_rule = within;
        let mut event = start;
        while r < self.rules.len()
            invariant
                rules == self.rules@,
                r0 == rule,
                s0 == step,
                in0 == within,
                ev0 == start@,
                r <= rules.len(),
                in_rule ==> r < rules.len() && s <= rules[r as int].steps@.len(),
                forall|answers: Answers|
                    #![trigger from_point(rules, r0, s0, in0, ev0, answers)]
                    from_point(rules, r0, s0, in0, ev0, answers) == from_point(
                        rules,
                        r as int,
                        s as int,
                        in_rule,
                        event@,
                        answers,
                    ),
            decreases rules.len() - r,
        {
            if !in_rule {
                let subject = match &event.subject {
                    Some(x) => Some(x.as_str()),
                    None => None,
                };
                if !is_when(&self.rules[r].when, subject) {
                    r += 1;
                    continue;
                }
                s = 0;
                in_rule = true;
            }
            let steps = &self.rules[r].steps;
            while s < steps.len()
                invariant
                    rules == self.rules@,
                    r0 == rule,
                    s0 == step,
                    in0 == within,
                    ev0 == start@,
                    r < rules.len(),
                    *steps == rules[r as int].steps,
                    s <= steps@.len(),
                    in_rule,
                    forall|answers: Answers|
                        #![trigger from_point(rules, r0, s0, in0, ev0, answers)]
                        from_point(rules, r0, s0, in0, ev0, answers) == continue_at(
                            rules,
                            r as int,
                            s as int,
                            event@,
                            answers,
                        ),
                decreases steps@.len() - s,
            {
                let step = &steps[s];
                match step {
                    Step::Validate(_) | Step::Enrich(_) => {
                        let ghost now = event@;
                        let pending = Pending { at: StepPosition { rule: r, step: s }, event };
                        proof {
                            assert forall|answers: Answers|
                                #[trigger] action_result(rules, Action::External(pending), answers)
                                    == from_point(rules, r0, s0, in0, ev0, answers) by {
                                assert(from_point(rules, r0, s0, in0, ev0, answers) == continue_at(
                                    rules,
                                    r as int,
                                    s as int,
                                    now,
                                    answers,
                                ));
                            }
                        }
                        return Action::External(pending);
                    },
                    _ => {},
                }
                let ghost before = event@;
                match apply_local(step, event) {
                    Ok(StepOutcome::Continue(next)) => {
                        event = next;
                        s += 1;
                    },
                    Ok(StepOutcome::Accept(e)) => {
                        return Action::Finished(Ok(Outcome::Accepted(e)));
                    },
                    Ok(StepOutcome::Reject(reason)) => {
                        return Action::Finished(Ok(Outcome::Rejected(reason)));
                    },
                    Ok(StepOutcome::Drop) => {
                        return Action::Finished(Ok(Outcome::Dropped));
                    },
                    Err(err) => {
                        proof {
                            assert forall|answers: Answers|
                                #[trigger] action_result(rules, Action::Finished(Err(err)), answers)
                                    == from_point(rules, r0, s0, in0, ev0, answers) by {
                                assert(from_point(rules, r0, s0, in0, ev0, answers) == continue_at(
                                    rules,
                                    r as int,
                                    s as int,
                                    before,
                                    answers,
                                ));
                            }
                        }
                        return Action::Finished(Err(err));
                    },
                }
            }
            r += 1;
            in_rule = false;
        }
        Action::Finished(Ok(Outcome::Accepted(event)))
    }

    /// Starts processing an event.
    pub fn start(&self, event: Event) -> (a: Action)
        ensures
            action_valid(self.rules@, a),
            !has_external_step(self.rules@) ==> a is Finished,
            forall|answers: Answers|
                #![trigger action_result(self.rules@, a, answers)]
                action_result(self.rules@, a, answers) == processed(
                    self.rules@,
                    event@,
                    answers,
                ),
    {
        self.run(0, 0, false, event)
    }

    /// Whether an external step of these rules is at `at`.
    pub open spec fn awaits(&self, at: StepPosition) -> bool {
        awaits(self.rules@, at)
    }

    /// The external step at `at`.
    pub fn pending_step(&self, at: &StepPosition) -> (r: &Step)
        requires
            self.awaits(*at),
        ensures
            *r == self.rules@[at.rule_index()].steps@[at.step_index()],
    {
        &self.rules[at.rule].steps[at.step]
    }

    /// Goes on after the external step at `at` gave `result`.
    pub fn resume(&self, at: StepPosition, result: Result<StepOutcome, ProcessError>) -> (a: Action)
        requires
            self.awaits(at),
        ensures
            action_valid(self.rules@, a),
            forall|answers: Answers|
                #![trigger action_result(self.rules@, a, answers)]
                action_result(self.rules@, a, answers) == after_step(
                    self.rules@,
                    at.rule_index(),
                    at.step_index(),
                    step_result_view(result),
                    answers,
                ),
    {
        match result {
            Err(e) => Action::Finished(Err(e)),
            Ok(StepOutcome::Continue(next)) => {
                assert(at.step < self.rules[at.rule as int].steps.len());
                self.run(at.rule, at.step + 1, true, next)
            },
            Ok(StepOutcome::Accept(e)) => Action::Finished(Ok(Outcome::Accepted(e))),
            Ok(StepOutcome::Reject(reason)) => Action::Finished(Ok(Outcome::Rejected(reason))),
            Ok(StepOutcome::Drop) => Action::Finished(Ok(Outcome::Dropped)),
        }
    }
}


/// Whether some rule of `rules` has a step that needs an external endpoint.
pub open spec fn has_external_step(rules: Seq<Rule>) -> bool {
    exists|r: int, s: int|
        0 <= r < rules.len() && 0 <= s < rules[r].steps@.len() && #[trigger] is_external(
            rules[r].steps@[s],
        )
}

/// Rules without external steps decide alike whatever the endpoints would answer
/// (from any rule on).
proof fn lemma_rules_from_local(rules: Seq<Rule>, r: int, ev: EventModel, a1: Answers, a2: Answers)
    requires
        !has_external_step(rules),
    ensures
        rules_from(rules, r, ev, a1) == rules_from(rules, r, ev, a2),
    decreases rules.len() - r, rules[r].steps@.len() + 1,
{
    if 0 <= r < rules.len() {
        if when_matches(rules[r].when, ev.subject) {
            lemma_continue_at_local(rules, r, 0, ev, a1, a2);
        } else {
            lemma_rules_from_local(rules, r + 1, ev, a1, a2);
        }
    }
}

/// Rules without external steps decide alike whatever the endpoints would answer
/// (from any step of a rule on).
proof fn lemma_continue_at_local(
    rules: Seq<Rule>,
    r: int,
    s: int,
    ev: EventModel,
    a1: Answers,
    a2: Answers,
)
    requires
        !has_external_step(rules),
    ensures
        continue_at(rules, r, s, ev, a1) == continue_at(rules, r, s, ev, a2),
    decreases rules.len() - r, rules[r].steps@.len() - s,
{
    if 0 <= r < rules.len() && s >= 0 {
        if s >= rules[r].steps@.len() {
            lemma_rules_from_local(rules, r + 1, ev, a1, a2);
        } else {
            assert(!is_external(rules[r].steps@[s]));
            match local_step(rules[r].steps@[s], ev) {
                Ok(StepOutcomeModel::Continue(next)) => {
                    lemma_continue_at_local(rules, r, s + 1, next, a1, a2);
                },
                _ => {},
            }
        }
    }
}

/// Rules without external steps decide alike whatever the endpoints would answer.
pub proof fn lemma_local_rules_ignore_answers(rules: Seq<Rule>, ev: EventModel, a1: Answers, a2: Answers)
    requires
        !has_external_step(rules),
    ensures
        processed(rules, ev, a1) == processed(rules, ev, a2),
{
    lemma_rules_from_local(rules, 0, ev, a1, a2);
}


/// From rule `r` on, rules whose conditions do not match leave the event accepted as it is.
proof fn lemma_rules_from_unmatched(rules: Seq<Rule>, r: int, ev: EventModel, answers: Answers)
    requires
        0 <= r,
        forall|i: int| r <= i < rules.len() ==> !when_matches(#[trigger] rules[i].when, ev.subject),
    ensures
        rules_from(rules, r, ev, answers) == Ok::<OutcomeModel, ProcessErrorModel>(
            OutcomeModel::Accepted(ev),
        ),
    decreases rules.len() - r,
{
    if r < rules.len() {
        assert(!when_matches(rules[r].when, ev.subject));
        lemma_rules_from_unmatched(rules, r + 1, ev, answers);
    }
}

/// An event that no rule's condition matches passes the rules as it is: it is accepted
/// unchanged, whatever the endpoints would answer.
pub proof fn lemma_unmatched_event_accepted(rules: Seq<Rule>, ev: EventModel, answers: Answers)
    requires
        forall|i: int| 0 <= i < rules.len() ==> !when_matches(#[trigger] rules[i].when, ev.subject),
    ensures
        processed(rules, ev, answers) == Ok::<OutcomeModel, ProcessErrorModel>(
            OutcomeModel::Accepted(ev),
        ),
{
    lemma_rules_from_unmatched(rules, 0, ev, answers);
}

/// How the rules treat an event from rule `r` on: a rule whose condition does not match
/// is skipped; in a rule that matches, a first step `Drop` drops the event, `Break`
/// accepts it as it is, and `Reject` rejects it with that reason, whatever the rules after
/// it say.
pub proof fn law_rule_outcome(rules: Seq<Rule>, r: int, ev: EventModel, answers: Answers)
    requires
        0 <= r < rules.len(),
    ensures
        !when_matches(rules[r].when, ev.subject) ==> rules_from(rules, r, ev, answers) == rules_from(
            rules,
            r + 1,
            ev,
            answers,
        ),
        when_matches(rules[r].when, ev.subject) && rules[r].steps@.len() > 0 ==> {
            &&& rules[r].steps@[0] is Drop ==> rules_from(rules, r, ev, answers) == Ok::<
                OutcomeModel,
                ProcessErrorModel,
            >(OutcomeModel::Dropped)
            &&& rules[r].steps@[0] is Break ==> rules_from(rules, r, ev, answers) == Ok::<
                OutcomeModel,
                ProcessErrorModel,
            >(OutcomeModel::Accepted(ev))
            &&& rules[r].steps@[0] matches Step::Reject(reason) ==> rules_from(rules, r, ev, answers)
                == Ok::<OutcomeModel, ProcessErrorModel>(OutcomeModel::Rejected(reason@))
        },
        when_matches(rules[r].when, ev.subject) && rules[r].steps@.len() == 0 ==> rules_from(
            rules,
            r,
            ev,
            answers,
        ) == rules_from(rules, r + 1, ev, answers),
{
    if when_matches(rules[r].when, ev.subject) {
        assert(rules_from(rules, r, ev, answers) == continue_at(rules, r, 0, ev, answers));
        if rules[r].steps@.len() > 0 {
            let step = rules[r].steps@[0];
            assert(!is_external(step) ==> step_result(step, ev, answers) == local_step(step, ev));
        }
    }
}

/// What a step that needs no endpoint does: `Drop` drops, `Break` accepts the event as it
/// is, `Reject` rejects with its reason; setting an extension makes it read as the value
/// and removing one makes it absent, other extensions and all attributes staying as they
/// were; setting `subject`, `datacontenttype` or `type` sets that attribute alone, removing
/// `type` or touching an unknown attribute is a configuration error.
pub proof fn law_local_step(step: Step, ev: EventModel, other: Seq<char>)
    ensures
        step is Drop ==> local_step(step, ev) == Ok::<StepOutcomeModel, ProcessErrorModel>(StepOutcomeModel::Drop),
        step is Break ==> local_step(step, ev) == Ok::<StepOutcomeModel, ProcessErrorModel>(
            StepOutcomeModel::Accept(ev),
        ),
        step matches Step::Reject(reason) ==> local_step(step, ev) == Ok::<StepOutcomeModel, ProcessErrorModel>(
            StepOutcomeModel::Reject(reason@),
        ),
        step matches Step::SetExtension { name, value } ==> (local_step(step, ev) matches Ok(
            StepOutcomeModel::Continue(e),
        ) && extension_of(e.extensions, name@) == Some(ExtensionValueModel::String(value@)) && (other
            != name@ ==> extension_of(e.extensions, other) == extension_of(ev.extensions, other)) && e
            == (EventModel { extensions: e.extensions, ..ev })),
        step matches Step::RemoveExtension(name) ==> (local_step(step, ev) matches Ok(
            StepOutcomeModel::Continue(e),
        ) && extension_of(e.extensions, name@) is None && (other != name@ ==> extension_of(
            e.extensions,
            other,
        ) == extension_of(ev.extensions, other)) && e == (EventModel { extensions: e.extensions, ..ev })),
        step is SetAttribute && step->SetAttribute_name@ == "subject"@ ==> local_step(step, ev) == Ok::<
            StepOutcomeModel,
            ProcessErrorModel,
        >(StepOutcomeModel::Continue(EventModel { subject: Some(step->SetAttribute_value@), ..ev })),
        step is SetAttribute && step->SetAttribute_name@ == "datacontenttype"@ ==> local_step(step, ev)
            == Ok::<StepOutcomeModel, ProcessErrorModel>(
            StepOutcomeModel::Continue(
                EventModel { datacontenttype: Some(step->SetAttribute_value@), ..ev },
            ),
        ),
        step is SetAttribute && step->SetAttribute_name@ == "type"@ ==> local_step(step, ev) == Ok::<
            StepOutcomeModel,
            ProcessErrorModel,
        >(StepOutcomeModel::Continue(EventModel { ty: step->SetAttribute_value@, ..ev })),
        step is RemoveAttribute && step->RemoveAttribute_0@ == "subject"@ ==> local_step(step, ev) == Ok::<
            StepOutcomeModel,
            ProcessErrorModel,
        >(StepOutcomeModel::Continue(EventModel { subject: None, ..ev })),
        step is RemoveAttribute && step->RemoveAttribute_0@ == "type"@ ==> local_step(step, ev) is Err,
        (step matches Step::SetAttribute { name, .. } && name@ != "subject"@ && name@ != "datacontenttype"@
            && name@ != "type"@ && name@ != "dataschema"@) ==> local_step(step, ev) is Err,
        (step matches Step::RemoveAttribute(name) && name@ != "subject"@ && name@ != "datacontenttype"@
            && name@ != "type"@ && name@ != "dataschema"@) ==> local_step(step, ev) is Err,
{
    match step {
        Step::SetExtension { name, value } => {
            if other != name@ {
                lemma_extension_reads_back(ev.extensions, name@, ExtensionValueModel::String(value@), other);
            } else {
                assert(name@.push('x').len() != name@.len());
                lemma_extension_reads_back(ev.extensions, name@, ExtensionValueModel::String(value@), name@.push('x'));
            }
        },
        Step::RemoveExtension(name) => {
            if other != name@ {
                lemma_removed_extension_absent(ev.extensions, name@, other);
            } else {
                assert(name@.push('x').len() != name@.len());
                lemma_removed_extension_absent(ev.extensions, name@, name@.push('x'));
            }
        },
        Step::SetAttribute { .. } | Step::RemoveAttribute(_) => {
            reveal_strlit("subject");
            reveal_strlit("datacontenttype");
            reveal_strlit("type");
            reveal_strlit("dataschema");
            assert("subject"@.len() == 7 && "datacontenttype"@.len() == 15);
            assert("type"@.len() == 4 && "dataschema"@.len() == 10);
        },
        _ => {},
    }
}

/// The error for a reply whose status the step does not accept.
pub open spec fn unexpected_status(status: u16) -> ProcessErrorModel {
    ProcessErrorModel::ExternalResponse("Unexpected endpoint response: "@ + status_display(status))
}

/// Builds the error for a reply whose status the step does not accept.
fn unexpected(status: u16) -> (r: ProcessError)
    requires
        100 <= status < 1000,
    ensures
        r@ == unexpected_status(status),
{
    ProcessError::ExternalResponse(concat("Unexpected endpoint response: ", status_text(status).as_str()))
}

/// The error for a reply that could not be read.
pub open spec fn request_failed(message: Seq<char>) -> ProcessErrorModel {
    ProcessErrorModel::ExternalEndpoint("Request error: "@ + message)
}

/// Builds the error for a reply that could not be read.
fn request_error(message: &str) -> (r: ProcessError)
    ensures
        r@ == request_failed(message@),
{
    ProcessError::ExternalEndpoint(concat("Request error: ", message))
}

/// What a validation step does next with the reply of its endpoint.
#[derive(Debug)]
pub enum ValidateNext {
    /// The step is decided.
    Done(Result<StepOutcome, ProcessError>),
    /// The event is rejected; the reason is the `reason` member of the JSON body.
    RejectWithJsonReason,
    /// The event is rejected; the reason is the text of the body.
    RejectWithText,
}

/// The mathematical value of a [`ValidateNext`].
pub enum ValidateNextModel {
    Done(Result<StepOutcomeModel, ProcessErrorModel>),
    RejectWithJsonReason,
    RejectWithText,
}

impl View for ValidateNext {
    type V = ValidateNextModel;

    open spec fn view(&self) -> ValidateNextModel {
        match self {
            ValidateNext::Done(r) => ValidateNextModel::Done(step_result_view(*r)),
            ValidateNext::RejectWithJsonReason => ValidateNextModel::RejectWithJsonReason,
            ValidateNext::RejectWithText => ValidateNextModel::RejectWithText,
        }
    }
}

/// What a validation reply with this status and content type decides: `OK` and `No
/// Content` let the event go on, `Accepted` accepts it, a client error rejects it with a
/// reason from the body, any other status is an error.
pub open spec fn validate_next(status: u16, content_type: Option<Seq<char>>, ev: EventModel) -> ValidateNextModel {
    if status == 200 || status == 204 {
        ValidateNextModel::Done(Ok(StepOutcomeModel::Continue(ev)))
    } else if status == 202 {
        ValidateNextModel::Done(Ok(StepOutcomeModel::Accept(ev)))
    } else if 400 <= status < 500 {
        if is_json_type(
            match content_type {
                Some(t) => t,
                None => Seq::empty(),
            },
        ) {
            ValidateNextModel::RejectWithJsonReason
        } else {
            ValidateNextModel::RejectWithText
        }
    } else {
        ValidateNextModel::Done(Err(unexpected_status(status)))
    }
}

/// Reads the status and content type of a validating endpoint's reply.
pub fn validate_reply(status: u16, content_type: Option<&str>, event: Event) -> (r: ValidateNext)
    requires
        100 <= status < 1000,
    ensures
        r@ == validate_next(status, opt_chars(content_type), event@),
{
    if status == 200 || status == 204 {
        ValidateNext::Done(Ok(StepOutcome::Continue(event)))
    } else if status == 202 {
        ValidateNext::Done(Ok(StepOutcome::Accept(event)))
    } else if 400 <= status && status < 500 {
        let json = match content_type {
            Some(t) => is_json(t),
            None => {
                proof {
                    reveal_strlit("");
                    assert(""@ =~= Seq::<char>::empty());
                }
                is_json("")
            },
        };
        if json {
            ValidateNext::RejectWithJsonReason
        } else {
            ValidateNext::RejectWithText
        }
    } else {
        ValidateNext::Done(Err(unexpected(status)))
    }
}

/// The reason of a rejection from a JSON body: its `reason` member where that is a string,
/// else `Rejected`.
pub open spec fn json_reason(body: JsonValue) -> Seq<char> {
    match member_or_none(body, "reason"@) {
        Some(v) => match as_str(v) {
            Some(t) => t,
            None => "Rejected"@,
        },
        None => "Rejected"@,
    }
}

/// Rejects with the reason from a JSON body; `Err` carries the text of a read error.
pub fn json_rejection(body: Result<JsonValue, String>) -> (r: Result<StepOutcome, ProcessError>)
    ensures
        step_result_view(r) == match body {
            Ok(v) => Ok(StepOutcomeModel::Reject(json_reason(v))),
            Err(e) => Err(request_failed(e@)),
        },
{
    match body {
        Ok(v) => {
            let reason = match v.get("reason") {
                Some(m) => match m.as_str() {
                    Some(t) => t.to_owned(),
                    None => "Rejected".to_owned(),
                },
                None => "Rejected".to_owned(),
            };
            Ok(StepOutcome::Reject(reason))
        },
        Err(e) => Err(request_error(e.as_str())),
    }
}

/// Rejects with the text of the body as the reason; `Err` carries the text of a read error.
pub fn text_rejection(body: Result<String, String>) -> (r: Result<StepOutcome, ProcessError>)
    ensures
        step_result_view(r) == match body {
            Ok(t) => Ok(StepOutcomeModel::Reject(t@)),
            Err(e) => Err(request_failed(e@)),
        },
{
    match body {
        Ok(t) => Ok(StepOutcome::Reject(t)),
        Err(e) => Err(request_error(e.as_str())),
    }
}

/// What an enriching step does next with the reply of its endpoint.
#[derive(Debug)]
pub enum EnrichNext {
    /// The step is decided.
    Done(Result<StepOutcome, ProcessError>),
    /// The reply is a cloud event (binary or structured mode), which replaces the event.
    ReadEvent,
    /// The reply is a structured cloud event, which replaces the event.
    ReadStructuredEvent,
    /// The reply's body becomes the data of this event.
    ReadData(Event),
}

/// The mathematical value of an [`EnrichNext`].
pub enum EnrichNextModel {
    Done(Result<StepOutcomeModel, ProcessErrorModel>),
    ReadEvent,
    ReadStructuredEvent,
    ReadData(EventModel),
}

impl View for EnrichNext {
    type V = EnrichNextModel;

    open spec fn view(&self) -> EnrichNextModel {
        match self {
            EnrichNext::Done(r) => EnrichNextModel::Done(step_result_view(*r)),
            EnrichNext::ReadEvent => EnrichNextModel::ReadEvent,
            EnrichNext::ReadStructuredEvent => EnrichNextModel::ReadStructuredEvent,
            EnrichNext::ReadData(e) => EnrichNextModel::ReadData(e@),
        }
    }
}

/// What an enriching reply with this status decides: only `OK` is accepted, and the
/// response type says how its body is read.
pub open spec fn enrich_next(response: ResponseType, status: u16, ev: EventModel) -> EnrichNextModel {
    if status != 200 {
        EnrichNextModel::Done(Err(unexpected_status(status)))
    } else {
        match response {
            ResponseType::CloudEvent => EnrichNextModel::ReadEvent,
            ResponseType::AssumeStructuredCloudEvent => EnrichNextModel::ReadStructuredEvent,
            ResponseType::Raw => EnrichNextModel::ReadData(ev),
        }
    }
}

/// What an endpoint's reply means for its step. Validation: `200` and `204` let the event
/// go on unchanged, `202` accepts it as it is, a client error (`4xx`) rejects it with a
/// reason read from the body (as JSON where the content type is a JSON one, else as
/// text), and every other status fails the step. Enrichment: every status but `200` fails
/// the step; with `200` the response type says how the body is read, raw data going into
/// the event as it is. A JSON rejection's reason is the body's `reason` text, else
/// `Rejected`.
pub proof fn law_endpoint_replies(
    status: u16,
    content_type: Option<Seq<char>>,
    response: ResponseType,
    ev: EventModel,
    body: JsonValue,
)
    ensures
        status == 200 || status == 204 ==> validate_next(status, content_type, ev)
            == ValidateNextModel::Done(Ok(StepOutcomeModel::Continue(ev))),
        status == 202 ==> validate_next(status, content_type, ev) == ValidateNextModel::Done(
            Ok(StepOutcomeModel::Accept(ev)),
        ),
        400 <= status < 500 && content_type is Some && is_json_type(content_type->0) ==> validate_next(
            status,
            content_type,
            ev,
        ) == ValidateNextModel::RejectWithJsonReason,
        400 <= status < 500 && !(content_type is Some && is_json_type(content_type->0)) ==> validate_next(
            status,
            content_type,
            ev,
        ) == ValidateNextModel::RejectWithText,
        status != 200 && status != 202 && status != 204 && !(400 <= status < 500) ==> validate_next(
            status,
            content_type,
            ev,
        ) matches ValidateNextModel::Done(Err(_)),
        status != 200 ==> enrich_next(response, status, ev) matches EnrichNextModel::Done(Err(_)),
        status == 200 && response is CloudEvent ==> enrich_next(response, status, ev)
            == EnrichNextModel::ReadEvent,
        status == 200 && response is AssumeStructuredCloudEvent ==> enrich_next(response, status, ev)
            == EnrichNextModel::ReadStructuredEvent,
        status == 200 && response is Raw ==> enrich_next(response, status, ev) == EnrichNextModel::ReadData(
            ev,
        ),
        member_or_none(body, "reason"@) matches Some(JsonValue::String(t)) ==> json_reason(body) == t@,
        !(member_or_none(body, "reason"@) matches Some(JsonValue::String(_))) ==> json_reason(body)
            == "Rejected"@,
{
    reveal_strlit("application/json");
    reveal_strlit("text/json");
    reveal_strlit("+json");
    assert(!is_json_type(Seq::empty()));
}

/// Reads the status of an enriching endpoint's reply.
pub fn enrich_reply(response: ResponseType, status: u16, event: Event) -> (r: EnrichNext)
    requires
        100 <= status < 1000,
    ensures
        r@ == enrich_next(response, status, event@),
{
    if status != 200 {
        EnrichNext::Done(Err(unexpected(status)))
    } else {
        match response {
            ResponseType::CloudEvent => EnrichNext::ReadEvent,
            ResponseType::AssumeStructuredCloudEvent => EnrichNext::ReadStructuredEvent,
            ResponseType::Raw => EnrichNext::ReadData(event),
        }
    }
}

/// Why a reply could not be read.
#[derive(Debug, PartialEq, Eq)]
pub enum ReadError {
    /// The body could not be received or decoded; the text of the error.
    Request(String),
    /// The body is no valid cloud event; the text of the error.
    Event(String),
}

/// The step's result where the reply was read as an event.
pub fn enriched_event(reply: Result<Event, ReadError>) -> (r: Result<StepOutcome, ProcessError>)
    ensures
        step_result_view(r) == match reply {
            Ok(e) => Ok(StepOutcomeModel::Continue(e@)),
            Err(ReadError::Request(m)) => Err(request_failed(m@)),
            Err(ReadError::Event(m)) => Err(ProcessErrorModel::Event(m@)),
        },
{
    match reply {
        Ok(e) => Ok(StepOutcome::Continue(e)),
        Err(ReadError::Request(m)) => Err(request_error(m.as_str())),
        Err(ReadError::Event(m)) => Err(ProcessError::Event(m)),
    }
}

/// The event with the raw body of a reply as its data: the content type of the reply,
/// `application/octet-stream` where it has none.
pub open spec fn with_raw_data(ev: EventModel, content_type: Option<Seq<char>>, data: Seq<u8>) -> EventModel {
    EventModel {
        datacontenttype: Some(
            match content_type {
                Some(t) => t,
                None => "application/octet-stream"@,
            },
        ),
        data: Some(DataModel::Binary(data)),
        ..ev
    }
}

/// The step's result where the body of the reply becomes the data of the event; `data`
/// holds the body, or the text of the error that reading it gave.
pub fn enriched_data(event: Event, content_type: Option<String>, data: Result<Vec<u8>, String>) -> (r: Result<
    StepOutcome,
    ProcessError,
>)
    ensures
        step_result_view(r) == match data {
            Ok(d) => Ok(
                StepOutcomeModel::Continue(
                    with_raw_data(
                        event@,
                        match content_type {
                            Some(t) => Some(t@),
                            None => None,
                        },
                        d@,
                    ),
                ),
            ),
            Err(e) => Err(request_failed(e@)),
        },
{
    match data {
        Ok(d) => {
            let mut event = event;
            event.datacontenttype = Some(
                match content_type {
                    Some(t) => t,
                    None => "application/octet-stream".to_owned(),
                },
            );
            event.data = Some(Data::Binary(d));
            Ok(StepOutcome::Continue(event))
        },
        Err(e) => Err(request_error(e.as_str())),
    }
}

} // verus!
