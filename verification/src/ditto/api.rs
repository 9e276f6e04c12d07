//! Requests of Ditto's HTTP API on policies and things.
use crate::ditto::data::{entity_id_text, EntityId, EntityIdModel, Policy};
use crate::ditto::operator::Thing;
use crate::text::concat;
use vstd::prelude::*;

verus! {

/// The HTTP method of an API request.
#[derive(Debug, Clone, Copy, PartialEq, Eq)]
pub enum ApiMethod {
    Put,
    Delete,
}

/// An operation on a policy.
#[derive(Debug)]
pub enum PolicyOperation {
    CreateOrUpdate(Policy),
    Delete(EntityId),
}

/// An operation on a thing.
#[derive(Debug)]
pub enum ThingOperation {
    CreateOrUpdate(Thing),
    Delete(EntityId),
}

/// A request of the API: its method, its path below the API's root, and the entity sent
/// as JSON body, if any.
#[derive(Debug)]
pub struct ApiRequest<T> {
    pub method: ApiMethod,
    pub path: String,
    pub body: Option<T>,
}

/// The path of an entity below a collection: `<collection>/<namespace>:<name>`.
pub open spec fn entity_path(collection: Seq<char>, id: EntityIdModel) -> Seq<char> {
    collection + entity_id_text(id)
}

impl PolicyOperation {
    /// The request of the operation: `PUT` with the policy, or `DELETE`, on
    /// `policies/<id>`.
    pub fn into_request(self) -> (r: ApiRequest<Policy>)
        ensures
            match self {
                PolicyOperation::CreateOrUpdate(p) => r.method == ApiMethod::Put && r.path@
                    == entity_path("policies/"@, p.policy_id@) && r.body == Some(p),
                PolicyOperation::Delete(id) => r.method == ApiMethod::Delete && r.path@
                    == entity_path("policies/"@, id@) && r.body is None,
            },
    {
        match self {
            PolicyOperation::CreateOrUpdate(p) => {
                let path = concat("policies/", p.policy_id.to_text().as_str());
                ApiRequest { method: ApiMethod::Put, path, body: Some(p) }
            },
            PolicyOperation::Delete(id) => {
                let path = concat("policies/", id.to_text().as_str());
                ApiRequest { method: ApiMethod::Delete, path, body: None }
            },
        }
    }
}

impl ThingOperation {
    /// The request of the operation: `PUT` with the thing, or `DELETE`, on
    /// `things/<id>`.
    pub fn into_request(self) -> (r: ApiRequest<Thing>)
        ensures
            match self {
                ThingOperation::CreateOrUpdate(t) => r.method == ApiMethod::Put && r.path@
                    == entity_path("things/"@, t.thing_id@) && r.body == Some(t),
                ThingOperation::Delete(id) => r.method == ApiMethod::Delete && r.path@
                    == entity_path("things/"@, id@) && r.body is None,
            },
    {
        match self {
            ThingOperation::CreateOrUpdate(t) => {
                let path = concat("things/", t.thing_id.to_text().as_str());
                ApiRequest { method: ApiMethod::Put, path, body: Some(t) }
            },
            ThingOperation::Delete(id) => {
                let path = concat("things/", id.to_text().as_str());
                ApiRequest { method: ApiMethod::Delete, path, body: None }
            },
        }
    }
}

} // verus!
