//! The Ditto WebSocket protocol: requests on policies.
use crate::ditto::data::{EntityId, Policy};
use crate::json::JsonValue;
use crate::ordered::{string_entries, string_map_new};
use indexmap::IndexMap;
use vstd::prelude::*;

verus! {

/// Writes the protocol topic of an entity.
pub trait ToTopic {
    fn to_topic(&self, path: &str) -> String;
}

impl ToTopic for EntityId {
    /// The protocol topic `<namespace>/<name>/<path>` of the entity.
    fn to_topic(&self, path: &str) -> (r: String)
        ensures
            r@ == self.0@ + seq!['/'] + self.1@ + seq!['/'] + path@,
    {
        let a = crate::text::join2(self.0.as_str(), '/', self.1.as_str());
        crate::text::join2(a.as_str(), '/', path)
    }
}

/// An operation on a policy.
pub enum PolicyOperation {
    Create(Policy),
    Update(Policy),
    Delete(EntityId),
}

/// The options of a protocol request: headers, the fields to select, further members,
/// the expected revision and the time (RFC 3339).
#[derive(Debug)]
pub struct RequestOptions {
    pub headers: IndexMap<String, String>,
    pub fields: Option<String>,
    pub extra: Vec<(String, JsonValue)>,
    pub revision: Option<u64>,
    pub timestamp: Option<String>,
}

impl Default for RequestOptions {
    /// No options at all.
    fn default() -> (r: RequestOptions)
        ensures
            string_entries(r.headers) == Seq::<(Seq<char>, Seq<char>)>::empty(),
            r.fields is None,
            r.extra@.len() == 0,
            r.revision is None,
            r.timestamp is None,
    {
        RequestOptions {
            headers: string_map_new(),
            fields: None,
            extra: Vec::new(),
            revision: None,
            timestamp: None,
        }
    }
}

/// A protocol request: topic, path, optional value and options.
#[derive(Debug)]
pub struct RequestEnvelope<T> {
    pub topic: String,
    pub path: String,
    pub value: Option<T>,
    pub options: RequestOptions,
}

/// A protocol response: topic, headers, path, value, the selected fields and the status.
#[derive(Debug)]
pub struct ResponseEnvelope<T> {
    pub topic: String,
    pub headers: IndexMap<String, String>,
    pub path: String,
    pub value: T,
    pub fields: Option<String>,
    pub status: u32,
}

impl PolicyOperation {
    /// The request envelope of the operation: the policy's topic with the command
    /// (`create`, `modify` or `delete`), the path `/`, and the policy as value unless
    /// deleting.
    pub fn request(self, options: RequestOptions) -> (r: RequestEnvelope<Policy>)
        ensures
            r.path@ == "/"@,
            r.options == options,
            match self {
                PolicyOperation::Create(p) => r.topic@ == p.policy_id.0@ + seq!['/']
                    + p.policy_id.1@ + seq!['/'] + "policies/commands/create"@ && r.value
                    == Some(p),
                PolicyOperation::Update(p) => r.topic@ == p.policy_id.0@ + seq!['/']
                    + p.policy_id.1@ + seq!['/'] + "policies/commands/modify"@ && r.value
                    == Some(p),
                PolicyOperation::Delete(id) => r.topic@ == id.0@ + seq!['/'] + id.1@ + seq!['/']
                    + "policies/commands/delete"@ && r.value is None,
            },
    {
        match self {
            PolicyOperation::Create(policy) => RequestEnvelope {
                topic: policy.policy_id.to_topic("policies/commands/create"),
                path: "/".to_string(),
                value: Some(policy),
                options,
            },
            PolicyOperation::Update(policy) => RequestEnvelope {
                topic: policy.policy_id.to_topic("policies/commands/modify"),
                path: "/".to_string(),
                value: Some(policy),
                options,
            },
            PolicyOperation::Delete(policy_id) => RequestEnvelope {
                topic: policy_id.to_topic("policies/commands/delete"),
                path: "/".to_string(),
                value: None,
                options,
            },
        }
    }
}

} // verus!
