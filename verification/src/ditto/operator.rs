//! What the operator decides while it reconciles applications and devices with Ditto:
//! the ids and the policy it creates, which errors are worth trying again, and what the
//! responses of Ditto mean.
use crate::ditto::connection::{eval_con_response, con_response_result, unit_result, ReconcileError, ReconcileErrorModel};
use crate::ditto::data::{
    distinct_keys,
    EntityId, EntityIdModel, Permission, Permissions, PermissionsModel, Policy, PolicyEntry,
    PolicyEntryModel, PolicyModel, Resource, ResourceModel, Subject,
};
use crate::ditto::devops::ConnectivityResponse;
use crate::json::JsonValue;
use crate::registry::{Application, Device};
use crate::status::{status_display, status_text};
use crate::text::{concat, str_is};
use vstd::prelude::*;

verus! {

/// The id of an application's policy: the application's name as namespace, `default` as
/// name.
pub open spec fn policy_id_of(app_name: Seq<char>) -> EntityIdModel {
    EntityIdModel { namespace: app_name, name: "default"@ }
}

/// The id of the policy of an application.
pub fn policy_id(app: &Application) -> (r: EntityId)
    ensures
        r@ == policy_id_of(app.name@),
{
    EntityId(app.name.clone(), "default".to_owned())
}

/// The id of a device's thing: the application's name as namespace, the device's name as
/// name.
pub fn thing_id(app: &Application, device: &Device) -> (r: EntityId)
    ensures
        r@ == (EntityIdModel { namespace: app.name@, name: device.name@ }),
{
    EntityId(app.name.clone(), device.name.clone())
}

/// Reading and writing granted, nothing revoked.
pub open spec fn read_write() -> PermissionsModel {
    PermissionsModel { grant: seq![Permission::Read, Permission::Write], revoke: Seq::empty() }
}

/// The policy of an application: the admin may read and write all policies and things,
/// the connection and all users all things.
pub open spec fn admin_policy_of(app_name: Seq<char>) -> PolicyModel {
    PolicyModel {
        policy_id: policy_id_of(app_name),
        entries: seq![
            (
                "ADMIN"@,
                PolicyEntryModel {
                    subjects: seq![("keycloak:drogue-admin"@, "Admin access"@)],
                    resources: seq![
                        (ResourceModel::Policy("/"@), read_write()),
                        (ResourceModel::Thing("/"@), read_write()),
                    ],
                },
            ),
            (
                "CONNECTION"@,
                PolicyEntryModel {
                    subjects: seq![
                        ("pre-authenticated:drogue-cloud"@, "Connection to Drogue IoT Kafka topic"@),
                    ],
                    resources: seq![(ResourceModel::Thing("/"@), read_write())],
                },
            ),
            (
                "USERS"@,
                PolicyEntryModel {
                    subjects: seq![("keycloak:drogue-user"@, "All users"@)],
                    resources: seq![(ResourceModel::Thing("/"@), read_write())],
                },
            ),
        ],
    }
}

/// Reading and writing granted.
fn read_write_permissions() -> (r: Permissions)
    ensures
        r@ == read_write(),
{
    let r = Permissions::grant(vec![Permission::Read, Permission::Write]);
    assert(r@.grant =~= read_write().grant);
    r
}

/// A policy entry of one subject.
fn entry(subject: &str, kind: &str, resources: Vec<(Resource, Permissions)>) -> (r: PolicyEntry)
    ensures
        r@.subjects == seq![(subject@, kind@)],
        r@.resources == resources@.map_values(|r: (Resource, Permissions)| (r.0@, r.1@)),
{
    let r = PolicyEntry {
        subjects: vec![(subject.to_owned(), Subject { kind: kind.to_owned() })],
        resources,
    };
    assert(r@.subjects =~= seq![(subject@, kind@)]);
    r
}

/// The policy that the operator creates for an application.
pub fn admin_policy(app: &Application) -> (r: Policy)
    ensures
        r@ == admin_policy_of(app.name@),
        r.wf(),
{
    let admin_resources = vec![
        (Resource::policy("/".to_owned()), read_write_permissions()),
        (Resource::thing("/".to_owned()), read_write_permissions()),
    ];
    let admin = entry("keycloak:drogue-admin", "Admin access", admin_resources);
    let connection_resources = vec![(Resource::thing("/".to_owned()), read_write_permissions())];
    let connection = entry(
        "pre-authenticated:drogue-cloud",
        "Connection to Drogue IoT Kafka topic",
        connection_resources,
    );
    let users_resources = vec![(Resource::thing("/".to_owned()), read_write_permissions())];
    let users = entry("keycloak:drogue-user", "All users", users_resources);
    let ghost (a, c, u) = (admin@, connection@, users@);
    let r = Policy {
        policy_id: policy_id(app),
        entries: vec![
            ("ADMIN".to_owned(), admin),
            ("CONNECTION".to_owned(), connection),
            ("USERS".to_owned(), users),
        ],
    };
    let ghost spec = admin_policy_of(app.name@);
    assert(a.resources =~= spec.entries[0].1.resources);
    assert(c.resources =~= spec.entries[1].1.resources);
    assert(u.resources =~= spec.entries[2].1.resources);
    assert(r@.entries =~= spec.entries);
    proof {
        reveal_strlit("ADMIN");
        reveal_strlit("USERS");
        reveal_strlit("CONNECTION");
        assert("ADMIN"@[0] != "USERS"@[0]);
        assert(forall|i: int| 0 <= i < 3 ==> (#[trigger] spec.entries[i]).1.wf());
    }
    r
}

/// A thing of Ditto.
#[derive(Debug, PartialEq, Eq)]
pub struct Thing {
    pub thing_id: EntityId,
    pub policy_id: EntityId,
    pub definition: Option<String>,
    pub attributes: JsonValue,
    pub features: Vec<(String, JsonValue)>,
}

impl Thing {
    /// Features are keyed by their name: no name twice.
    pub open spec fn wf(&self) -> bool {
        distinct_keys(self.features@.map_values(|f: (String, JsonValue)| (f.0@, f.1)))
    }
}

/// The thing that the operator creates for a device: under the application's policy,
/// without definition, attributes or features.
pub fn device_thing(app: &Application, device: &Device) -> (r: Thing)
    ensures
        r.thing_id@ == (EntityIdModel { namespace: app.name@, name: device.name@ }),
        r.policy_id@ == policy_id_of(app.name@),
        r.definition is None,
        r.attributes == JsonValue::Null,
        r.features@.len() == 0,
        r.wf(),
{
    Thing {
        thing_id: thing_id(app, device),
        policy_id: policy_id(app),
        definition: None,
        attributes: JsonValue::Null,
        features: Vec::new(),
    }
}

/// An error of a request to Ditto.
#[derive(Debug, PartialEq, Eq)]
pub enum DittoError {
    /// The URL could not be built; the text of the error.
    Url(String),
    /// No access token could be had; the text of the error.
    Token(String),
    /// The request failed; the text of the error, whether it timed out or could not
    /// connect, and the status it got, if any.
    Request { message: String, timeout: bool, connect: bool, status: Option<u16> },
    /// The response has a status that is no success.
    Response(u16),
    /// The response is no valid JSON of the expected form; the text of the error.
    Json(String),
}

/// A status that is worth trying again: a server error or a request timeout.
pub open spec fn code_is_temporary(code: u16) -> bool {
    (500 <= code < 600) || code == 408
}

/// An error that is worth trying again: a request that timed out, could not connect or
/// got a status worth trying again, or a response with such a status.
pub open spec fn error_is_temporary(e: DittoError) -> bool {
    match e {
        DittoError::Request { timeout, connect, status, .. } => timeout || connect || match status {
            Some(code) => code_is_temporary(code),
            None => false,
        },
        DittoError::Response(code) => code_is_temporary(code),
        _ => false,
    }
}

/// The text of an error.
pub open spec fn ditto_error_text(e: DittoError) -> Seq<char> {
    match e {
        DittoError::Url(m) => "failed to build URL: "@ + m@,
        DittoError::Token(m) => "failed to acquire access token: "@ + m@,
        DittoError::Request { message, .. } => "failed to execute request: "@ + message@,
        DittoError::Response(code) => "response indicated error ("@ + status_display(code) + ")"@,
        DittoError::Json(m) => "JSON error ("@ + m@ + ")"@,
    }
}

impl DittoError {
    /// Status codes are valid ones (100 to 999).
    pub open spec fn wf(&self) -> bool {
        match *self {
            DittoError::Request { status, .. } => match status {
                Some(code) => 100 <= code < 1000,
                None => true,
            },
            DittoError::Response(code) => 100 <= code < 1000,
            _ => true,
        }
    }

    /// Whether the status indicates a temporary error: a server error or a request
    /// timeout (408).
    pub fn code_is_temp(code: u16) -> (r: bool)
        ensures
            r == code_is_temporary(code),
    {
        (500 <= code && code < 600) || code == 408
    }

    /// Whether the error is temporary, so that the request can be tried again.
    pub fn is_temporary(&self) -> (r: bool)
        ensures
            r == error_is_temporary(*self),
    {
        match self {
            DittoError::Request { timeout, connect, status, .. } => *timeout || *connect || match status {
                Some(code) => DittoError::code_is_temp(*code),
                None => false,
            },
            DittoError::Response(code) => DittoError::code_is_temp(*code),
            _ => false,
        }
    }

    /// The text of the error.
    pub fn message(&self) -> (r: String)
        requires
            self.wf(),
        ensures
            r@ == ditto_error_text(*self),
    {
        match self {
            DittoError::Url(m) => concat("failed to build URL: ", m.as_str()),
            DittoError::Token(m) => concat("failed to acquire access token: ", m.as_str()),
            DittoError::Request { message, .. } => concat("failed to execute request: ", message.as_str()),
            DittoError::Response(code) => {
                let mut r = concat("response indicated error (", status_text(*code).as_str());
                crate::text::append_str(&mut r, ")");
                r
            },
            DittoError::Json(m) => {
                let mut r = concat("JSON error (", m.as_str());
                crate::text::append_str(&mut r, ")");
                r
            },
        }
    }
}

/// How an error of Ditto fails reconciling: for now where it is temporary, else for
/// good; with the error's text.
pub open spec fn reconcile_error_of(e: DittoError) -> ReconcileErrorModel {
    if error_is_temporary(e) {
        ReconcileErrorModel::Temporary(ditto_error_text(e))
    } else {
        ReconcileErrorModel::Permanent(ditto_error_text(e))
    }
}

/// How an error of Ditto fails reconciling.
pub fn map_ditto_error(err: DittoError) -> (r: ReconcileError)
    requires
        err.wf(),
    ensures
        r@ == reconcile_error_of(err),
{
    if err.is_temporary() {
        ReconcileError::Temporary(err.message())
    } else {
        ReconcileError::Permanent(err.message())
    }
}

/// What deleting an entity gives: success where it is gone already (`404`), else the
/// request's own outcome.
pub open spec fn deleted_result(resp: Result<(), DittoError>) -> Result<(), ReconcileErrorModel> {
    match resp {
        Ok(()) => Ok(()),
        Err(DittoError::Response(404)) => Ok(()),
        Err(e) => Err(reconcile_error_of(e)),
    }
}

/// Evaluates the outcome of deleting a policy or thing.
pub fn delete_outcome(resp: Result<(), DittoError>) -> (r: Result<(), ReconcileError>)
    requires
        match resp {
            Err(e) => e.wf(),
            Ok(()) => true,
        },
    ensures
        unit_result(r) == deleted_result(resp),
{
    match resp {
        Ok(()) => Ok(()),
        Err(DittoError::Response(404)) => Ok(()),
        Err(e) => Err(map_ditto_error(e)),
    }
}

/// What creating or updating an entity gives: the request's own outcome, an error of
/// Ditto failing reconciling as `reconcile_error_of` says.
pub open spec fn applied_result(resp: Result<(), DittoError>) -> Result<(), ReconcileErrorModel> {
    match resp {
        Ok(()) => Ok(()),
        Err(e) => Err(reconcile_error_of(e)),
    }
}

/// Evaluates the outcome of creating or updating a policy or thing.
pub fn apply_outcome(resp: Result<(), DittoError>) -> (r: Result<(), ReconcileError>)
    requires
        match resp {
            Err(e) => e.wf(),
            Ok(()) => true,
        },
    ensures
        unit_result(r) == applied_result(resp),
{
    match resp {
        Ok(()) => Ok(()),
        Err(e) => Err(map_ditto_error(e)),
    }
}

/// Whether a connectivity response says that the connection does not exist: its first
/// entry has status `404`.
pub open spec fn connection_missing(entries: Seq<(String, crate::ditto::devops::ConnectivityResponseEntry)>) -> bool {
    entries.len() > 0 && entries[0].1.status == 404
}

/// Whether modifying a connection failed because it does not exist yet (so that it
/// is to be created).
pub fn needs_create(response: &ConnectivityResponse) -> (r: bool)
    ensures
        r == connection_missing(response.connectivity@),
{
    response.connectivity.len() > 0 && response.connectivity[0].1.status == 404
}

/// What deleting a connection gives: success where it was gone already, else the
/// response's verdict.
pub open spec fn connection_deleted(entries: Seq<(String, crate::ditto::devops::ConnectivityResponseEntry)>) -> Result<
    (),
    ReconcileErrorModel,
> {
    if connection_missing(entries) {
        Ok(())
    } else {
        con_response_result(entries)
    }
}

/// Evaluates the response to deleting a connection.
pub fn delete_connection_outcome(response: ConnectivityResponse) -> (r: Result<(), ReconcileError>)
    ensures
        unit_result(r) == connection_deleted(response.connectivity@),
{
    if needs_create(&response) {
        Ok(())
    } else {
        eval_con_response(response)
    }
}

/// An event of the registry: a change of an application or of a device, at a path of it.
#[derive(Debug, PartialEq, Eq)]
pub enum RegistryEvent {
    Application { path: String, application: String },
    Device { path: String, application: String, device: String },
}

/// A change at a path that concerns the Ditto configuration: the whole resource, its
/// metadata, or its Ditto spec.
pub open spec fn relevant_path(path: Seq<char>) -> bool {
    path == "."@ || path == ".metadata"@ || path == ".spec.ditto"@
}

/// Whether a path is relevant.
fn is_relevant_path(path: &str) -> (r: bool)
    ensures
        r == relevant_path(path@),
{
    str_is(path, ".") || str_is(path, ".metadata") || str_is(path, ".spec.ditto")
}

/// The application to reconcile for an event, if it concerns one.
pub fn is_app_relevant(event: &RegistryEvent) -> (r: Option<String>)
    ensures
        match r {
            Some(a) => event matches RegistryEvent::Application { path, application } && relevant_path(
                path@,
            ) && a@ == application@,
            None => !(event matches RegistryEvent::Application { path, .. } && relevant_path(
                path@,
            )),
        },
{
    match event {
        RegistryEvent::Application { path, application } => if is_relevant_path(path.as_str()) {
            Some(application.clone())
        } else {
            None
        },
        _ => None,
    }
}

/// The device (application and device name) to reconcile for an event, if it concerns
/// one.
pub fn is_device_relevant(event: &RegistryEvent) -> (r: Option<(String, String)>)
    ensures
        match r {
            Some((a, d)) => event matches RegistryEvent::Device { path, application, device }
                && relevant_path(path@) && a@ == application@ && d@ == device@,
            None => !(event matches RegistryEvent::Device { path, .. } && relevant_path(path@)),
        },
{
    match event {
        RegistryEvent::Device { path, application, device } => if is_relevant_path(path.as_str()) {
            Some((application.clone(), device.clone()))
        } else {
            None
        },
        _ => None,
    }
}

} // verus!
