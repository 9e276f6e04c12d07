//! Requests to external endpoints of the rules engine: what a request holds, checked
//! against the endpoint's configuration before anything is sent.
use crate::process::{
    Authentication, ContentMode, ExternalEndpoint, Header, ProcessError, ProcessErrorModel,
    RequestType,
};
use crate::ordered::{inserted, inserted_all, keys_of, lemma_inserted_all_last, lookup};
use crate::text::{concat, is_first_index, str_is};
use crate::urls::{parse_url, url_parsed};
use vstd::prelude::*;

verus! {

/// The timeout of a request where the endpoint sets none: five seconds.
pub const DEFAULT_TIMEOUT_MS: u64 = 5000;

/// The capacity of the client pool where the configuration sets none.
pub const DEFAULT_POOL_CAPACITY: usize = 8;

/// The configuration of the pool of clients for external endpoints.
#[derive(Debug, Clone, Copy, PartialEq, Eq)]
pub struct ExternalClientPoolConfig {
    /// How many clients (one per TLS configuration) the pool keeps.
    pub capacity: usize,
}

impl ExternalClientPoolConfig {
    /// The default configuration: a capacity of eight clients.
    pub fn default_config() -> (r: ExternalClientPoolConfig)
        ensures
            r.capacity == DEFAULT_POOL_CAPACITY,
    {
        ExternalClientPoolConfig { capacity: DEFAULT_POOL_CAPACITY }
    }
}

/// An error while preparing or sending a request to an external endpoint.
#[derive(Debug, PartialEq, Eq)]
pub enum ExternalError {
    /// The endpoint's configuration is not valid.
    InvalidConfiguration(String),
    /// The request failed.
    Request(String),
    /// The event could not be written into the request.
    CloudEvent(String),
}

/// The mathematical value of an [`ExternalError`].
pub enum ExternalErrorModel {
    InvalidConfiguration(Seq<char>),
    Request(Seq<char>),
    CloudEvent(Seq<char>),
}

impl View for ExternalError {
    type V = ExternalErrorModel;

    open spec fn view(&self) -> ExternalErrorModel {
        match self {
            ExternalError::InvalidConfiguration(m) => ExternalErrorModel::InvalidConfiguration(m@),
            ExternalError::Request(m) => ExternalErrorModel::Request(m@),
            ExternalError::CloudEvent(m) => ExternalErrorModel::CloudEvent(m@),
        }
    }
}

/// How an external error is written.
pub open spec fn external_error_text(e: ExternalErrorModel) -> Seq<char> {
    match e {
        ExternalErrorModel::InvalidConfiguration(m) => "Invalid configuration: "@ + m,
        ExternalErrorModel::Request(m) => "Request error: "@ + m,
        ExternalErrorModel::CloudEvent(m) => "Cloud event error: "@ + m,
    }
}

impl ExternalError {
    /// The error of the rules engine that this error is reported as.
    pub fn into_process_error(self) -> (r: ProcessError)
        ensures
            r@ == ProcessErrorModel::ExternalEndpoint(external_error_text(self@)),
    {
        match self {
            ExternalError::InvalidConfiguration(m) => ProcessError::ExternalEndpoint(
                concat("Invalid configuration: ", m.as_str()),
            ),
            ExternalError::Request(m) => ProcessError::ExternalEndpoint(
                concat("Request error: ", m.as_str()),
            ),
            ExternalError::CloudEvent(m) => ProcessError::ExternalEndpoint(
                concat("Cloud event error: ", m.as_str()),
            ),
        }
    }
}

/// A character that a header name may hold: a visible ASCII character other than
/// `( ) , / : ; < = > ? @ [ \ ] { }` (the table `HEADER_CHARS` of `http`).
pub open spec fn header_name_char(c: char) -> bool {
    let n = c as u32;
    ||| n == 33 || n == 34
    ||| 35 <= n <= 39
    ||| n == 42 || n == 43 || n == 45 || n == 46
    ||| 48 <= n <= 57
    ||| 65 <= n <= 90
    ||| 94 <= n <= 122
    ||| n == 124 || n == 126
}

/// The lower case form of an ASCII character; any other character as it is.
pub open spec fn ascii_lower(c: char) -> char {
    if 65 <= (c as u32) <= 90 {
        ((c as u32) + 32) as char
    } else {
        c
    }
}

/// The name that `http::HeaderName::try_from` makes of a text: its lower case form,
/// where the text has 1 to 65535 characters, each one a header name may hold; `None`
/// otherwise (every character it accepts is ASCII, one byte long).
pub open spec fn header_name_of(name: Seq<char>) -> Option<Seq<char>> {
    if 0 < name.len() <= 65535 && forall|i: int| 0 <= i < name.len() ==> header_name_char(#[trigger] name[i]) {
        Some(name.map_values(|c: char| ascii_lower(c)))
    } else {
        None
    }
}

/// Calls `http::header::HeaderName::try_from` on `name`; gives the name as the header map
/// keeps it, as `header_name_of` states.
#[verifier::external_body]
fn header_name(name: &str) -> (r: Option<String>)
    ensures
        match r {
            Some(n) => header_name_of(name@) == Some(n@),
            None => header_name_of(name@) is None,
        },
{
    match http::header::HeaderName::try_from(name) {
        Ok(n) => Some(n.as_str().to_string()),
        Err(_) => None,
    }
}

/// A character that `http::HeaderValue::from_str` accepts: a tab, or any but a control
/// character of ASCII (those below 32, and 127).
pub open spec fn header_value_char(c: char) -> bool {
    c == '\t' || (c as u32 >= 32 && c as u32 != 127)
}

/// Calls `http::HeaderValue::from_str` on `value`; it accepts the text exactly when each
/// of its bytes is a tab, or at least 32 and not 127, which for the text's characters is
/// what `header_value_char` states.
#[verifier::external_body]
fn header_value_valid(value: &str) -> (r: bool)
    ensures
        r == forall|i: int| 0 <= i < value@.len() ==> header_value_char(#[trigger] value@[i]),
{
    http::HeaderValue::from_str(value).is_ok()
}

/// A request to an external endpoint, ready to be sent.
#[derive(Debug, PartialEq, Eq)]
pub struct RequestPlan {
    /// The HTTP method.
    pub method: String,
    /// The URL, as the `url` crate writes it.
    pub url: String,
    /// The headers, each by its normalized name, once: in the order in which the names
    /// first occur in the configuration, each with the last value given for it.
    pub headers: Vec<(String, String)>,
    /// The timeout in milliseconds.
    pub timeout_ms: u64,
    /// How the event goes into the request.
    pub mode: ContentMode,
}

/// The mathematical value of a [`RequestPlan`].
pub struct RequestPlanModel {
    pub method: Seq<char>,
    pub url: Seq<char>,
    pub headers: Seq<(Seq<char>, Seq<char>)>,
    pub timeout_ms: u64,
    pub mode: ContentMode,
}

impl View for RequestPlan {
    type V = RequestPlanModel;

    open spec fn view(&self) -> RequestPlanModel {
        RequestPlanModel {
            method: self.method@,
            url: self.url@,
            headers: self.headers@.map_values(|h: (String, String)| (h.0@, h.1@)),
            timeout_ms: self.timeout_ms,
            mode: self.mode,
        }
    }
}

/// The method of a request: the configured one, `POST` where none or an empty one is set.
pub open spec fn method_of(method: Option<String>) -> Seq<char> {
    match method {
        Some(m) => if m@.len() == 0 {
            "POST"@
        } else {
            m@
        },
        None => "POST"@,
    }
}

/// The first header of `headers` that cannot be sent, as the error for it, if any.
pub open spec fn header_error(headers: Seq<Header>) -> Option<Seq<char>>
    decreases headers.len(),
{
    if headers.len() == 0 {
        None
    } else if header_name_of(headers[0].name@) is None {
        Some("Invalid header name: invalid HTTP header name"@)
    } else if !(forall|i: int|
        0 <= i < headers[0].value@.len() ==> header_value_char(#[trigger] headers[0].value@[i])) {
        Some("Invalid header value: failed to parse header value"@)
    } else {
        header_error(headers.drop_first())
    }
}

/// The headers as configured: normalized names with their values, in order.
pub open spec fn named_headers(headers: Seq<Header>) -> Seq<(Seq<char>, Seq<char>)> {
    headers.map_values(|h: Header| (header_name_of(h.name@)->Some_0, h.value@))
}

/// The headers as they are sent, each inserted in turn into a header map: a name keeps
/// the place where it first occurs and the last value given for it.
pub open spec fn sent_headers(headers: Seq<Header>) -> Seq<(Seq<char>, Seq<char>)> {
    inserted_all(Seq::empty(), named_headers(headers))
}

/// The view of a list of headers.
pub open spec fn header_pairs(v: Seq<(String, String)>) -> Seq<(Seq<char>, Seq<char>)> {
    v.map_values(|h: (String, String)| (h.0@, h.1@))
}

/// Inserts a header into a list of headers: where the name is there already its value
/// is replaced in place, else the header goes last.
fn insert_header(headers: &mut Vec<(String, String)>, name: String, value: String)
    ensures
        header_pairs(final(headers)@) == inserted(header_pairs(old(headers)@), name@, value@),
{
    let ghost before = header_pairs(headers@);
    let ghost keys = keys_of(before);
    assert(keys.len() == headers@.len());
    let mut i: usize = 0;
    while i < headers.len()
        invariant
            i <= headers@.len(),
            before == header_pairs(headers@),
            headers@ == old(headers)@,
            keys == keys_of(before),
            keys.len() == headers@.len(),
            forall|j: int| 0 <= j < i ==> keys[j] != name@,
        decreases headers@.len() - i,
    {
        assert(keys[i as int] == headers@[i as int].0@);
        if str_is(headers[i].0.as_str(), name.as_str()) {
            proof {
                assert(is_first_index(keys, name@, i as int));
                assert(keys.contains(name@));
                let k = choose|k: int| is_first_index(keys, name@, k);
                crate::text::lemma_first_index_unique(keys, name@, i as int, k);
            }
            let ghost nv = (name@, value@);
            headers.set(i, (name, value));
            assert(header_pairs(headers@) =~= before.update(i as int, nv));
            assert(inserted(before, nv.0, nv.1) == before.update(i as int, nv));
            return;
        }
        i += 1;
    }
    assert(!keys.contains(name@)) by {
        if keys.contains(name@) {
            let t = choose|t: int| 0 <= t < keys.len() && keys[t] == name@;
            assert(keys[t] != name@);
        }
    }
    headers.push((name, value));
    assert(header_pairs(headers@) =~= before.push((name@, value@)));
}

/// The request for an endpoint, or the reason why the endpoint's configuration is not
/// valid: its URL must parse, and each header's name and value be accepted.
pub open spec fn request_plan(request: RequestType, endpoint: ExternalEndpoint) -> Result<
    RequestPlanModel,
    ExternalErrorModel,
> {
    match url_parsed(endpoint.url@) {
        Err(e) => Err(ExternalErrorModel::InvalidConfiguration("Invalid URL: "@ + e)),
        Ok(url) => match header_error(endpoint.headers@) {
            Some(m) => Err(ExternalErrorModel::InvalidConfiguration(m)),
            None => Ok(
                RequestPlanModel {
                    method: method_of(endpoint.method),
                    url,
                    headers: sent_headers(endpoint.headers@),
                    timeout_ms: match endpoint.timeout_ms {
                        Some(t) => t,
                        None => DEFAULT_TIMEOUT_MS,
                    },
                    mode: match request {
                        RequestType::CloudEvent { mode } => mode,
                    },
                },
            ),
        },
    }
}

/// What a planned request is made of: where the endpoint sets a non-empty method it is
/// used, else `POST`; the URL is the endpoint's URL as parsed, and a URL that does not
/// parse is a configuration error; the timeout is the configured one, else five seconds;
/// the event goes in the mode that the request type asks for.
pub proof fn law_request_plan(request: RequestType, endpoint: ExternalEndpoint)
    ensures
        request_plan(request, endpoint) matches Ok(p) ==> {
            &&& (endpoint.method matches Some(m) && m@.len() > 0) ==> p.method == endpoint.method->0@
            &&& (endpoint.method is None || endpoint.method->0@.len() == 0) ==> p.method == "POST"@
            &&& url_parsed(endpoint.url@) == Ok::<Seq<char>, Seq<char>>(p.url)
            &&& endpoint.timeout_ms matches Some(t) ==> p.timeout_ms == t
            &&& endpoint.timeout_ms is None ==> p.timeout_ms == 5000
            &&& request matches RequestType::CloudEvent { mode } && p.mode == mode
        },
        url_parsed(endpoint.url@) is Err ==> request_plan(request, endpoint) matches Err(
            ExternalErrorModel::InvalidConfiguration(_),
        ),
        forall|k: int|
            #![trigger endpoint.headers@[k]]
            0 <= k < endpoint.headers@.len() && request_plan(request, endpoint) is Ok && (forall|j: int|
                k < j < endpoint.headers@.len() ==> header_name_of((#[trigger] endpoint.headers@[j]).name@)
                    != header_name_of(endpoint.headers@[k].name@)) ==> lookup(
                request_plan(request, endpoint)->Ok_0.headers,
                header_name_of(endpoint.headers@[k].name@)->Some_0,
            ) == Some(endpoint.headers@[k].value@),
{
    let hs = endpoint.headers@;
    let named = named_headers(hs);
    assert forall|k: int|
        #![trigger endpoint.headers@[k]]
        0 <= k < hs.len() && request_plan(request, endpoint) is Ok && (forall|j: int|
            k < j < hs.len() ==> header_name_of((#[trigger] hs[j]).name@) != header_name_of(
                hs[k].name@,
            )) implies lookup(
        request_plan(request, endpoint)->Ok_0.headers,
        header_name_of(hs[k].name@)->Some_0,
    ) == Some(hs[k].value@) by {
        lemma_header_error_none(hs);
        assert(named[k] == (header_name_of(hs[k].name@)->Some_0, hs[k].value@));
        assert forall|j: int| k < j < named.len() implies (#[trigger] named[j]).0 != named[k].0 by {
            assert(named[j] == (header_name_of(hs[j].name@)->Some_0, hs[j].value@));
            assert(header_name_of(hs[j].name@) is Some);
            assert(header_name_of(hs[k].name@) is Some);
        }
        lemma_inserted_all_last(Seq::empty(), named, k);
    }
}

/// Without a header error every header's name is accepted.
proof fn lemma_header_error_none(headers: Seq<Header>)
    ensures
        header_error(headers) is None ==> forall|i: int|
            0 <= i < headers.len() ==> header_name_of((#[trigger] headers[i]).name@) is Some,
    decreases headers.len(),
{
    if headers.len() > 0 {
        lemma_header_error_none(headers.drop_first());
        if header_error(headers) is None {
            assert forall|i: int| 0 <= i < headers.len() implies header_name_of((#[trigger] headers[i]).name@) is Some by {
                if i > 0 {
                    assert(headers.drop_first()[i - 1] == headers[i]);
                }
            }
        }
    }
}

/// Prepares the request for an endpoint (the credentials of `endpoint.auth` go with it
/// unchanged).
pub fn plan_request(request: RequestType, endpoint: &ExternalEndpoint) -> (r: Result<
    RequestPlan,
    ExternalError,
>)
    ensures
        match r {
            Ok(p) => request_plan(request, *endpoint) == Ok::<RequestPlanModel, ExternalErrorModel>(
                p@,
            ),
            Err(e) => request_plan(request, *endpoint) == Err::<RequestPlanModel, ExternalErrorModel>(
                e@,
            ),
        },
{
    let method = match &endpoint.method {
        Some(m) => if m.as_str().is_empty() {
            "POST".to_owned()
        } else {
            m.clone()
        },
        None => "POST".to_owned(),
    };
    let url = match parse_url(endpoint.url.as_str()) {
        Ok(u) => u,
        Err(e) => {
            return Err(ExternalError::InvalidConfiguration(concat("Invalid URL: ", e.as_str())));
        },
    };
    let ghost all = endpoint.headers@;
    let mut headers: Vec<(String, String)> = Vec::new();
    let mut i: usize = 0;
    assert(all.skip(0) =~= all);
    while i < endpoint.headers.len()
        invariant
            all == endpoint.headers@,
            url_parsed(endpoint.url@) == Ok::<Seq<char>, Seq<char>>(url@),
            i <= all.len(),
            header_error(all) == header_error(all.skip(i as int)),
            header_pairs(headers@) == inserted_all(Seq::empty(), named_headers(all).take(i as int)),
        decreases all.len() - i,
    {
        let h = &endpoint.headers[i];
        assert(all.skip(i as int).drop_first() =~= all.skip(i + 1));
        assert(all.skip(i as int)[0] == all[i as int]);
        let name = match header_name(h.name.as_str()) {
            Some(n) => n,
            None => {
                return Err(
                    ExternalError::InvalidConfiguration(
                        "Invalid header name: invalid HTTP header name".to_owned(),
                    ),
                );
            },
        };
        if !header_value_valid(h.value.as_str()) {
            return Err(
                ExternalError::InvalidConfiguration(
                    "Invalid header value: failed to parse header value".to_owned(),
                ),
            );
        }
        proof {
            let nh = named_headers(all);
            assert(nh.take(i + 1).drop_last() =~= nh.take(i as int));
            assert(nh.take(i + 1).last() == (name@, h.value@));
        }
        insert_header(&mut headers, name, h.value.clone());
        i += 1;
    }
    assert(named_headers(all).take(i as int) =~= named_headers(all));
    assert(all.skip(i as int) =~= Seq::<Header>::empty());
    let plan = RequestPlan {
        method,
        url,
        headers,
        timeout_ms: match endpoint.timeout_ms {
            Some(t) => t,
            None => DEFAULT_TIMEOUT_MS,
        },
        mode: match request {
            RequestType::CloudEvent { mode } => mode,
        },
    };
    assert(plan@.headers == sent_headers(all));
    Ok(plan)
}

/// What is sent to an external endpoint: the event, in a content mode.
#[derive(Debug)]
pub enum RequestPayload {
    CloudEvent { mode: ContentMode, event: crate::event::Event },
}

/// Turns an event into the payload that a request type sends.
pub trait IntoPayload {
    fn to_payload(&self, event: crate::event::Event) -> RequestPayload;
}

impl IntoPayload for RequestType {
    /// The event as a cloud event, in the request type's content mode.
    fn to_payload(&self, event: crate::event::Event) -> (r: RequestPayload)
        ensures
            match *self {
                RequestType::CloudEvent { mode } => r matches RequestPayload::CloudEvent {
                    mode: m,
                    event: e,
                } && m == mode && e == event,
            },
    {
        match self {
            RequestType::CloudEvent { mode } => RequestPayload::CloudEvent { event, mode: *mode },
        }
    }
}

} // verus!
