//! The DevOps requests with which the operator sets an application up in Ditto and tears
//! it down again, and what it does with each answer.
use crate::ditto::connection::{
    con_response_result, connection_id_of, eval_con_response, eval_ns_response, ns_response_result,
    unit_result, ConnectionType, ReconcileError, ReconcileErrorModel,
};
use crate::ditto::devops::{
    Connection, ConnectivityResponse, DevopsCommand, Headers, NamespaceResponse, PiggybackCommand,
};
use crate::ditto::operator::{
    connection_deleted, connection_missing, delete_connection_outcome, map_ditto_error,
    reconcile_error_of, DittoError,
};
use crate::registry::Application;
use vstd::prelude::*;

verus! {

/// The actor of Ditto that manages connections.
pub open spec fn connection_actor() -> Seq<char> {
    "/system/sharding/connection"@
}

/// The actor of Ditto that blocks, purges and unblocks namespaces.
pub open spec fn namespace_actor() -> Seq<char> {
    "/system/distributedPubSubMediator"@
}

/// Headers that neither aggregate the answers nor address a group topic.
pub open spec fn plain_headers() -> Headers {
    Headers { aggregate: false, is_group_topic: false }
}

/// The command goes to the connection actor, with plain headers, and carries `command`.
pub open spec fn to_connection_actor(c: DevopsCommand, command: PiggybackCommand) -> bool {
    &&& c.target_actor_selection@ == connection_actor()
    &&& c.headers == plain_headers()
    &&& c.piggyback_command == command
}

/// A command to the connection actor.
fn connection_command(command: PiggybackCommand) -> (r: DevopsCommand)
    ensures
        to_connection_actor(r, command),
{
    DevopsCommand {
        target_actor_selection: "/system/sharding/connection".to_owned(),
        headers: Headers { aggregate: false, is_group_topic: false },
        piggyback_command: command,
    }
}

/// The command that modifies a connection (it fails with `404` where there is none yet).
pub fn modify_connection(connection: Connection) -> (r: DevopsCommand)
    ensures
        to_connection_actor(r, PiggybackCommand::ModifyConnection { connection }),
{
    connection_command(PiggybackCommand::ModifyConnection { connection })
}

/// The command that creates a connection.
pub fn create_connection(connection: Connection) -> (r: DevopsCommand)
    ensures
        to_connection_actor(r, PiggybackCommand::CreateConnection { connection }),
{
    connection_command(PiggybackCommand::CreateConnection { connection })
}

/// The command that deletes a connection.
pub fn delete_connection(connection_id: String) -> (r: DevopsCommand)
    ensures
        to_connection_actor(r, PiggybackCommand::DeleteConnection { connection_id }),
{
    connection_command(PiggybackCommand::DeleteConnection { connection_id })
}

/// A DevOps request: the command, and how many seconds Ditto may take over it where that
/// is limited.
#[derive(Debug)]
pub struct DevopsRequest {
    pub command: DevopsCommand,
    pub timeout_secs: Option<u64>,
}

/// What the operator does to a namespace.
#[derive(Clone, Copy, Debug, PartialEq, Eq)]
pub enum NamespaceOperation {
    Block,
    Purge,
    Unblock,
}

/// The request for an operation on a namespace: to the namespace actor; a purge aggregates
/// the answers of the group topic and may take 20 seconds, the others have plain headers
/// and no limit of their own.
pub open spec fn is_namespace_request(r: DevopsRequest, op: NamespaceOperation, namespace: Seq<char>) -> bool {
    &&& r.command.target_actor_selection@ == namespace_actor()
    &&& match op {
        NamespaceOperation::Block => {
            &&& r.command.headers == plain_headers()
            &&& r.timeout_secs is None
            &&& r.command.piggyback_command matches PiggybackCommand::BlockNamespace { namespace: n }
                && n@ == namespace
        },
        NamespaceOperation::Purge => {
            &&& r.command.headers == (Headers { aggregate: true, is_group_topic: true })
            &&& r.timeout_secs == Some(20u64)
            &&& r.command.piggyback_command matches PiggybackCommand::PurgeNamespace { namespace: n }
                && n@ == namespace
        },
        NamespaceOperation::Unblock => {
            &&& r.command.headers == plain_headers()
            &&& r.timeout_secs is None
            &&& r.command.piggyback_command matches PiggybackCommand::UnblockNamespace {
                namespace: n,
            } && n@ == namespace
        },
    }
}

/// The request for an operation on a namespace.
pub fn namespace_request(op: NamespaceOperation, namespace: String) -> (r: DevopsRequest)
    ensures
        is_namespace_request(r, op, namespace@),
{
    let (headers, timeout_secs, piggyback_command) = match op {
        NamespaceOperation::Block => (
            Headers { aggregate: false, is_group_topic: false },
            None,
            PiggybackCommand::BlockNamespace { namespace },
        ),
        NamespaceOperation::Purge => (
            Headers { aggregate: true, is_group_topic: true },
            Some(20),
            PiggybackCommand::PurgeNamespace { namespace },
        ),
        NamespaceOperation::Unblock => (
            Headers { aggregate: false, is_group_topic: false },
            None,
            PiggybackCommand::UnblockNamespace { namespace },
        ),
    };
    DevopsRequest {
        command: DevopsCommand {
            target_actor_selection: "/system/distributedPubSubMediator".to_owned(),
            headers,
            piggyback_command,
        },
        timeout_secs,
    }
}

/// What a request's answer means where its response is judged by `verdict`: a failed
/// request fails as its error says.
pub open spec fn answer_result<T>(answer: Result<T, DittoError>, verdict: spec_fn(T) -> Result<(), ReconcileErrorModel>) -> Result<
    (),
    ReconcileErrorModel,
> {
    match answer {
        Err(e) => Err(reconcile_error_of(e)),
        Ok(resp) => verdict(resp),
    }
}

/// The errors of a request have valid status codes.
pub open spec fn answer_wf<T>(answer: Result<T, DittoError>) -> bool {
    answer matches Err(e) ==> e.wf()
}

/// The verdict on the response to creating or modifying a connection.
pub open spec fn connectivity_verdict() -> spec_fn(ConnectivityResponse) -> Result<(), ReconcileErrorModel> {
    |resp: ConnectivityResponse| con_response_result(resp.connectivity@)
}

/// The verdict on the response to deleting a connection: one that is gone already counts
/// as deleted.
pub open spec fn deletion_verdict() -> spec_fn(ConnectivityResponse) -> Result<(), ReconcileErrorModel> {
    |resp: ConnectivityResponse| connection_deleted(resp.connectivity@)
}

/// The verdict on the response to a namespace operation.
pub open spec fn namespace_verdict() -> spec_fn(NamespaceResponse) -> Result<(), ReconcileErrorModel> {
    |resp: NamespaceResponse| ns_response_result(resp.entries@)
}

/// What the operator does next while it applies a connection.
#[derive(Debug)]
pub enum ConnectionStep {
    /// Send this command, and judge its answer with [`after_create`].
    Send(DevopsCommand),
    /// Applying the connection ended so.
    Done(Result<(), ReconcileError>),
}

/// After the answer to modifying a connection (`sent`): where the request failed, its
/// error; where the connection does not exist yet, the command that creates it; else the
/// response's verdict.
pub fn after_modify(sent: DevopsCommand, answer: Result<ConnectivityResponse, DittoError>) -> (r: ConnectionStep)
    requires
        answer_wf(answer),
    ensures
        match answer {
            Ok(resp) if connection_missing(resp.connectivity@) => match sent.piggyback_command {
                PiggybackCommand::ModifyConnection { connection } => r matches ConnectionStep::Send(c)
                    && to_connection_actor(c, PiggybackCommand::CreateConnection { connection }),
                _ => r matches ConnectionStep::Done(res) && unit_result(res) == Err::<(), _>(
                    ReconcileErrorModel::Permanent("This is weird!"@),
                ),
            },
            _ => r matches ConnectionStep::Done(res) && unit_result(res) == answer_result(
                answer,
                connectivity_verdict(),
            ),
        },
{
    match answer {
        Err(e) => ConnectionStep::Done(Err(map_ditto_error(e))),
        Ok(resp) => {
            if crate::ditto::operator::needs_create(&resp) {
                match sent.piggyback_command {
                    PiggybackCommand::ModifyConnection { connection } => ConnectionStep::Send(
                        create_connection(connection),
                    ),
                    _ => ConnectionStep::Done(
                        Err(ReconcileError::Permanent("This is weird!".to_owned())),
                    ),
                }
            } else {
                ConnectionStep::Done(eval_con_response(resp))
            }
        },
    }
}

/// After the answer to creating a connection: the request's error, else the response's
/// verdict.
pub fn after_create(answer: Result<ConnectivityResponse, DittoError>) -> (r: Result<(), ReconcileError>)
    requires
        answer_wf(answer),
    ensures
        unit_result(r) == answer_result(answer, connectivity_verdict()),
{
    match answer {
        Err(e) => Err(map_ditto_error(e)),
        Ok(resp) => eval_con_response(resp),
    }
}

/// After the answer to deleting a connection: the request's error, else success where
/// the connection is gone (already), else the response's verdict.
pub fn after_delete(answer: Result<ConnectivityResponse, DittoError>) -> (r: Result<(), ReconcileError>)
    requires
        answer_wf(answer),
    ensures
        unit_result(r) == answer_result(answer, deletion_verdict()),
{
    match answer {
        Err(e) => Err(map_ditto_error(e)),
        Ok(resp) => delete_connection_outcome(resp),
    }
}

/// After the answer to a namespace operation: the request's error, else the response's
/// verdict.
pub fn after_namespace_operation(answer: Result<NamespaceResponse, DittoError>) -> (r: Result<
    (),
    ReconcileError,
>)
    requires
        answer_wf(answer),
    ensures
        unit_result(r) == answer_result(answer, namespace_verdict()),
{
    match answer {
        Err(e) => Err(map_ditto_error(e)),
        Ok(resp) => eval_ns_response(resp),
    }
}

/// A job of setting an application up: apply a connection, or remove one.
#[derive(Clone, Copy, Debug, PartialEq, Eq)]
pub enum SetupJob {
    Apply(ConnectionType),
    Remove(ConnectionType),
}

/// The jobs of setting an application up, in order: apply the inbound connection; then
/// apply the outbound one where the application exports, else remove it.
pub fn setup_jobs(exports: bool) -> (r: Vec<SetupJob>)
    ensures
        r@ == seq![
            SetupJob::Apply(ConnectionType::Inbound),
            if exports {
                SetupJob::Apply(ConnectionType::Outbound)
            } else {
                SetupJob::Remove(ConnectionType::Outbound)
            },
        ],
{
    let second = if exports {
        SetupJob::Apply(ConnectionType::Outbound)
    } else {
        SetupJob::Remove(ConnectionType::Outbound)
    };
    let r = vec![SetupJob::Apply(ConnectionType::Inbound), second];
    assert(r@ =~= seq![SetupJob::Apply(ConnectionType::Inbound), second]);
    r
}

/// The steps of tearing an application down, in order.
#[derive(Clone, Copy, Debug, PartialEq, Eq)]
pub enum Teardown {
    DeleteInbound,
    DeleteOutbound,
    Block,
    Purge,
    Unblock,
}

impl Teardown {
    /// The step after this one, if any.
    pub open spec fn following(self) -> Option<Teardown> {
        match self {
            Teardown::DeleteInbound => Some(Teardown::DeleteOutbound),
            Teardown::DeleteOutbound => Some(Teardown::Block),
            Teardown::Block => Some(Teardown::Purge),
            Teardown::Purge => Some(Teardown::Unblock),
            Teardown::Unblock => None,
        }
    }

    /// The step deletes a connection (its answer is a connectivity response); the others
    /// operate on the namespace.
    pub open spec fn deletes_connection(self) -> bool {
        self is DeleteInbound || self is DeleteOutbound
    }
}

/// The request of a teardown step for the application named `app`: deleting its inbound,
/// then its outbound connection, then blocking, purging and unblocking its namespace.
pub open spec fn is_teardown_request(r: DevopsRequest, step: Teardown, app: Seq<char>) -> bool {
    match step {
        Teardown::DeleteInbound => {
            &&& r.timeout_secs is None
            &&& r.command.target_actor_selection@ == connection_actor()
            &&& r.command.headers == plain_headers()
            &&& r.command.piggyback_command matches PiggybackCommand::DeleteConnection {
                connection_id,
            } && connection_id@ == connection_id_of(ConnectionType::Inbound, app)
        },
        Teardown::DeleteOutbound => {
            &&& r.timeout_secs is None
            &&& r.command.target_actor_selection@ == connection_actor()
            &&& r.command.headers == plain_headers()
            &&& r.command.piggyback_command matches PiggybackCommand::DeleteConnection {
                connection_id,
            } && connection_id@ == connection_id_of(ConnectionType::Outbound, app)
        },
        Teardown::Block => is_namespace_request(r, NamespaceOperation::Block, app),
        Teardown::Purge => is_namespace_request(r, NamespaceOperation::Purge, app),
        Teardown::Unblock => is_namespace_request(r, NamespaceOperation::Unblock, app),
    }
}

/// The request of a teardown step.
pub fn teardown_request(step: Teardown, app: &Application) -> (r: DevopsRequest)
    ensures
        is_teardown_request(r, step, app.name@),
{
    match step {
        Teardown::DeleteInbound => DevopsRequest {
            command: delete_connection(ConnectionType::Inbound.connection_id(app)),
            timeout_secs: None,
        },
        Teardown::DeleteOutbound => DevopsRequest {
            command: delete_connection(ConnectionType::Outbound.connection_id(app)),
            timeout_secs: None,
        },
        Teardown::Block => namespace_request(NamespaceOperation::Block, app.name.clone()),
        Teardown::Purge => namespace_request(NamespaceOperation::Purge, app.name.clone()),
        Teardown::Unblock => namespace_request(NamespaceOperation::Unblock, app.name.clone()),
    }
}

/// What the operator does next while it tears an application down.
#[derive(Debug)]
pub enum TeardownNext {
    /// Send the request of this step.
    Send(Teardown, DevopsRequest),
    /// The teardown ended so.
    Done(Result<(), ReconcileError>),
}

/// The next of a teardown whose `step` ended with `result`: a failed step ends the
/// teardown with its error, else the following step is sent, and after the last one the
/// teardown has succeeded.
pub open spec fn is_teardown_next(r: TeardownNext, step: Teardown, app: Seq<char>, result: Result<(), ReconcileErrorModel>) -> bool {
    match result {
        Err(e) => r matches TeardownNext::Done(res) && unit_result(res) == Err::<(), _>(e),
        Ok(()) => match step.following() {
            Some(n) => r matches TeardownNext::Send(s, req) && s == n && is_teardown_request(
                req,
                n,
                app,
            ),
            None => r matches TeardownNext::Done(res) && res is Ok,
        },
    }
}

/// The first step of tearing an application down.
pub fn start_teardown(app: &Application) -> (r: TeardownNext)
    ensures
        r matches TeardownNext::Send(s, req) && s == Teardown::DeleteInbound && is_teardown_request(
            req,
            Teardown::DeleteInbound,
            app.name@,
        ),
{
    TeardownNext::Send(Teardown::DeleteInbound, teardown_request(Teardown::DeleteInbound, app))
}

/// Goes on after a step ended with `result`.
fn teardown_after(step: Teardown, app: &Application, result: Result<(), ReconcileError>) -> (r: TeardownNext)
    ensures
        is_teardown_next(r, step, app.name@, unit_result(result)),
{
    match result {
        Err(e) => TeardownNext::Done(Err(e)),
        Ok(()) => {
            let next = match step {
                Teardown::DeleteInbound => Some(Teardown::DeleteOutbound),
                Teardown::DeleteOutbound => Some(Teardown::Block),
                Teardown::Block => Some(Teardown::Purge),
                Teardown::Purge => Some(Teardown::Unblock),
                Teardown::Unblock => None,
            };
            match next {
                Some(n) => TeardownNext::Send(n, teardown_request(n, app)),
                None => TeardownNext::Done(Ok(())),
            }
        },
    }
}

/// Goes on after the answer to a step that deletes a connection.
pub fn after_connection_step(
    step: Teardown,
    app: &Application,
    answer: Result<ConnectivityResponse, DittoError>,
) -> (r: TeardownNext)
    requires
        step.deletes_connection(),
        answer_wf(answer),
    ensures
        is_teardown_next(r, step, app.name@, answer_result(answer, deletion_verdict())),
{
    teardown_after(step, app, after_delete(answer))
}

/// Goes on after the answer to a step on the namespace.
pub fn after_namespace_step(
    step: Teardown,
    app: &Application,
    answer: Result<NamespaceResponse, DittoError>,
) -> (r: TeardownNext)
    requires
        !step.deletes_connection(),
        answer_wf(answer),
    ensures
        is_teardown_next(r, step, app.name@, answer_result(answer, namespace_verdict())),
{
    teardown_after(step, app, after_namespace_operation(answer))
}

} // verus!
