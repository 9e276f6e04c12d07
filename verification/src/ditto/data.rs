//! Data of the Eclipse Ditto integration: entity ids, policies and their resources,
//! protocol topics and the HTTP API requests made of them.
use crate::text::{chars_of, concat, find_char, join2, split_once, split_once_chars, str_is, string_of};
use vstd::prelude::*;

verus! {

/// A Ditto entity id: a namespace and a name.
#[derive(Clone, Debug, PartialEq, Eq)]
pub struct EntityId(pub String, pub String);

/// The mathematical value of an [`EntityId`].
pub struct EntityIdModel {
    pub namespace: Seq<char>,
    pub name: Seq<char>,
}

impl View for EntityId {
    type V = EntityIdModel;

    open spec fn view(&self) -> EntityIdModel {
        EntityIdModel { namespace: self.0@, name: self.1@ }
    }
}

/// The text form of an entity id: `<namespace>:<name>`.
pub open spec fn entity_id_text(e: EntityIdModel) -> Seq<char> {
    e.namespace + seq![':'] + e.name
}

/// The text holds exactly one `:` and splits there into `(before, after)`.
pub open spec fn split_in_two(s: Seq<char>) -> Option<(Seq<char>, Seq<char>)> {
    match split_once(s, ':') {
        Some((a, b)) => if b.contains(':') {
            None
        } else {
            Some((a, b))
        },
        None => None,
    }
}

/// How an entity id is read from text: exactly two parts around a single `:`.
pub open spec fn entity_id_of(s: Seq<char>) -> Option<EntityIdModel> {
    match split_in_two(s) {
        Some((namespace, name)) => Some(EntityIdModel { namespace, name }),
        None => None,
    }
}

/// Splits at the single `:`; `None` where there is none, or more than one.
fn split_in_two_chars(s: &str) -> (r: Option<(Vec<char>, Vec<char>)>)
    ensures
        match r {
            Some((a, b)) => split_in_two(s@) == Some((a@, b@)),
            None => split_in_two(s@) is None,
        },
{
    let cs = chars_of(s);
    match split_once_chars(&cs, ':') {
        Some((a, b)) => {
            if find_char(&b, ':').is_some() {
                None
            } else {
                Some((a, b))
            }
        },
        None => None,
    }
}

impl EntityId {
    /// An entity id of a namespace and a name.
    pub fn new(namespace: String, name: String) -> (r: EntityId)
        ensures
            r@ == (EntityIdModel { namespace: namespace@, name: name@ }),
    {
        EntityId(namespace, name)
    }

    /// The text form `<namespace>:<name>`.
    pub fn to_text(&self) -> (r: String)
        ensures
            r@ == entity_id_text(self@),
    {
        join2(self.0.as_str(), ':', self.1.as_str())
    }

    /// Reads an entity id; the error where the text is not two parts around one `:`.
    pub fn parse(s: &str) -> (r: Result<EntityId, String>)
        ensures
            match r {
                Ok(e) => entity_id_of(s@) == Some(e@),
                Err(m) => entity_id_of(s@) is None && m@ == "Invalid policy ID"@,
            },
    {
        match split_in_two_chars(s) {
            Some((ns, name)) => Ok(EntityId(string_of(&ns), string_of(&name))),
            None => Err("Invalid policy ID".to_string()),
        }
    }
}

/// A part that holds no `:` is split off again exactly.
proof fn lemma_split_at_single_colon(a: Seq<char>, b: Seq<char>)
    requires
        !a.contains(':'),
        !b.contains(':'),
    ensures
        split_in_two(a + seq![':'] + b) == Some((a, b)),
{
    let s = a + seq![':'] + b;
    let n = a.len() as int;
    assert(s[n] == ':');
    assert(s.contains(':'));
    assert(crate::text::is_first_index(s, ':', n)) by {
        assert forall|j: int| 0 <= j < n implies s[j] != ':' by {
            assert(s[j] == a[j]);
        }
    }
    let i = choose|i: int| crate::text::is_first_index(s, ':', i);
    crate::text::lemma_first_index_unique(s, ':', i, n);
    assert(s.take(n) =~= a);
    assert(s.skip(n + 1) =~= b);
}

/// Reading the text form of an entity id gives the entity id back, exactly where
/// neither namespace nor name holds a `:`.
pub proof fn lemma_entity_id_round_trip(e: EntityIdModel)
    ensures
        entity_id_of(entity_id_text(e)) == Some(e) <==> (!e.namespace.contains(':')
            && !e.name.contains(':')),
{
    let s = entity_id_text(e);
    if !e.namespace.contains(':') && !e.name.contains(':') {
        lemma_split_at_single_colon(e.namespace, e.name);
    } else if entity_id_of(s) == Some(e) {
        let (a, b) = split_in_two(s).unwrap();
        assert(a == e.namespace && b == e.name);
        if e.namespace.contains(':') {
            let k = choose|k: int| 0 <= k < e.namespace.len() && e.namespace[k] == ':';
            assert(s[k] == ':');
            assert(s.contains(':'));
            crate::text::lemma_first_index_exists(s, ':');
            let i = choose|i: int| crate::text::is_first_index(s, ':', i);
            assert(s.take(i) == a);
            assert(a.len() == i);
            assert(!(k < i));
        } else {
            assert(b.contains(':'));
        }
    }
}

/// Reading text as an entity id and writing it back gives the same text.
pub proof fn lemma_entity_id_text_of_parsed(s: Seq<char>)
    requires
        entity_id_of(s) is Some,
    ensures
        entity_id_text(entity_id_of(s)->0) == s,
{
    let i = choose|i: int| crate::text::is_first_index(s, ':', i);
    crate::text::lemma_first_index_exists(s, ':');
    assert(s =~= s.take(i) + seq![':'] + s.skip(i + 1));
}

/// A permission of a policy entry.
#[derive(Clone, Copy, Debug, PartialEq, Eq)]
pub enum Permission {
    Read,
    Write,
    Execute,
}

/// Granted and revoked permissions.
#[derive(Clone, Debug, PartialEq, Eq)]
pub struct Permissions {
    pub grant: Vec<Permission>,
    pub revoke: Vec<Permission>,
}

impl Permissions {
    /// Permissions that grant exactly the given ones and revoke none.
    pub fn grant(permissions: Vec<Permission>) -> (r: Permissions)
        ensures
            r.grant@ == permissions@,
            r.revoke@ == Seq::<Permission>::empty(),
    {
        Permissions { grant: permissions, revoke: Vec::new() }
    }
}

/// The subject of a policy entry.
#[derive(Clone, Debug, PartialEq, Eq)]
pub struct Subject {
    pub kind: String,
}

/// A resource a policy entry speaks of.
#[derive(Clone, Debug, PartialEq, Eq, Hash)]
pub enum Resource {
    Thing(String),
    Policy(String),
    Message(String),
}

/// The mathematical value of a [`Resource`].
pub enum ResourceModel {
    Thing(Seq<char>),
    Policy(Seq<char>),
    Message(Seq<char>),
}

impl View for Resource {
    type V = ResourceModel;

    open spec fn view(&self) -> ResourceModel {
        match self {
            Resource::Thing(p) => ResourceModel::Thing(p@),
            Resource::Policy(p) => ResourceModel::Policy(p@),
            Resource::Message(p) => ResourceModel::Message(p@),
        }
    }
}

/// The text form of a resource: `thing:<path>`, `policy:<path>` or `message:<path>`.
pub open spec fn resource_text(r: ResourceModel) -> Seq<char> {
    match r {
        ResourceModel::Thing(p) => "thing"@ + seq![':'] + p,
        ResourceModel::Policy(p) => "policy"@ + seq![':'] + p,
        ResourceModel::Message(p) => "message"@ + seq![':'] + p,
    }
}

/// How a resource is read from text: a known kind and a path around a single `:`.
pub open spec fn resource_of(s: Seq<char>) -> Option<ResourceModel> {
    match split_in_two(s) {
        Some((kind, path)) => if kind == "thing"@ {
            Some(ResourceModel::Thing(path))
        } else if kind == "policy"@ {
            Some(ResourceModel::Policy(path))
        } else if kind == "message"@ {
            Some(ResourceModel::Message(path))
        } else {
            None
        },
        None => None,
    }
}

impl Resource {
    /// A thing resource.
    pub fn thing(path: String) -> (r: Resource)
        ensures
            r@ == ResourceModel::Thing(path@),
    {
        Resource::Thing(path)
    }

    /// A policy resource.
    pub fn policy(path: String) -> (r: Resource)
        ensures
            r@ == ResourceModel::Policy(path@),
    {
        Resource::Policy(path)
    }

    /// A message resource.
    pub fn message(path: String) -> (r: Resource)
        ensures
            r@ == ResourceModel::Message(path@),
    {
        Resource::Message(path)
    }

    /// The text form of the resource.
    pub fn to_text(&self) -> (r: String)
        ensures
            r@ == resource_text(self@),
    {
        match self {
            Resource::Thing(p) => join2("thing", ':', p.as_str()),
            Resource::Policy(p) => join2("policy", ':', p.as_str()),
            Resource::Message(p) => join2("message", ':', p.as_str()),
        }
    }

    /// Reads a resource; the error where the text is no known kind and path around a
    /// single `:`.
    pub fn parse(s: &str) -> (r: Result<Resource, String>)
        ensures
            match r {
                Ok(res) => resource_of(s@) == Some(res@),
                Err(m) => resource_of(s@) is None && m@ == "Invalid policy ID"@,
            },
    {
        match split_in_two_chars(s) {
            Some((kind, path)) => {
                let kind = string_of(&kind);
                let path = string_of(&path);
                if str_is(kind.as_str(), "thing") {
                    Ok(Resource::Thing(path))
                } else if str_is(kind.as_str(), "policy") {
                    Ok(Resource::Policy(path))
                } else if str_is(kind.as_str(), "message") {
                    Ok(Resource::Message(path))
                } else {
                    Err("Invalid policy ID".to_string())
                }
            },
            None => Err("Invalid policy ID".to_string()),
        }
    }
}

/// Reading the text form of a resource gives the resource back, exactly where its path
/// holds no `:`.
pub proof fn lemma_resource_round_trip(r: ResourceModel)
    ensures
        resource_of(resource_text(r)) == Some(r) <==> !(match r {
            ResourceModel::Thing(p) => p,
            ResourceModel::Policy(p) => p,
            ResourceModel::Message(p) => p,
        }).contains(':'),
{
    reveal_strlit("thing");
    reveal_strlit("policy");
    reveal_strlit("message");
    let (kind, path) = match r {
        ResourceModel::Thing(p) => ("thing"@, p),
        ResourceModel::Policy(p) => ("policy"@, p),
        ResourceModel::Message(p) => ("message"@, p),
    };
    assert(!kind.contains(':'));
    let s = resource_text(r);
    assert(s == kind + seq![':'] + path);
    if !path.contains(':') {
        lemma_split_at_single_colon(kind, path);
    } else {
        let k = choose|k: int| 0 <= k < path.len() && path[k] == ':';
        assert(s[kind.len() + 1 + k] == ':');
        lemma_split_at_single_colon_first(kind, path);
    }
}

/// With a `:`-free prefix, the text splits at the `:` after it, and the rest is kept.
proof fn lemma_split_at_single_colon_first(a: Seq<char>, b: Seq<char>)
    requires
        !a.contains(':'),
    ensures
        split_once(a + seq![':'] + b, ':') == Some((a, b)),
{
    let s = a + seq![':'] + b;
    let n = a.len() as int;
    assert(s[n] == ':');
    assert(s.contains(':'));
    assert(crate::text::is_first_index(s, ':', n)) by {
        assert forall|j: int| 0 <= j < n implies s[j] != ':' by {
            assert(s[j] == a[j]);
        }
    }
    let i = choose|i: int| crate::text::is_first_index(s, ':', i);
    crate::text::lemma_first_index_unique(s, ':', i, n);
    assert(s.take(n) =~= a);
    assert(s.skip(n + 1) =~= b);
}

/// An entry of a policy: subjects and the permissions on resources.
#[derive(Clone, Debug, PartialEq, Eq)]
pub struct PolicyEntry {
    pub subjects: Vec<(String, Subject)>,
    pub resources: Vec<(Resource, Permissions)>,
}

/// A policy: its id and named entries, in order.
#[derive(Clone, Debug, PartialEq, Eq)]
pub struct Policy {
    pub policy_id: EntityId,
    pub entries: Vec<(String, PolicyEntry)>,
}


/// No key occurs twice among the entries, as in a map keyed by the first component.
pub open spec fn distinct_keys<K, V>(entries: Seq<(K, V)>) -> bool {
    forall|i: int, j: int| 0 <= i < j < entries.len() ==> entries[i].0 != entries[j].0
}

impl PolicyEntry {
    /// Subjects are keyed by their id and permissions by their resource: no key twice.
    pub open spec fn wf(&self) -> bool {
        self@.wf()
    }
}

impl Policy {
    /// Entries are keyed by their label, none twice, and each entry is well formed.
    pub open spec fn wf(&self) -> bool {
        self@.wf()
    }
}

/// The mathematical value of [`Permissions`].
pub struct PermissionsModel {
    pub grant: Seq<Permission>,
    pub revoke: Seq<Permission>,
}

impl View for Permissions {
    type V = PermissionsModel;

    open spec fn view(&self) -> PermissionsModel {
        PermissionsModel { grant: self.grant@, revoke: self.revoke@ }
    }
}

/// The mathematical value of a [`PolicyEntry`]: subjects by id with their type, and
/// permissions by resource.
pub struct PolicyEntryModel {
    pub subjects: Seq<(Seq<char>, Seq<char>)>,
    pub resources: Seq<(ResourceModel, PermissionsModel)>,
}

impl PolicyEntryModel {
    /// No subject id and no resource twice.
    pub open spec fn wf(self) -> bool {
        distinct_keys(self.subjects) && distinct_keys(self.resources)
    }
}

impl View for PolicyEntry {
    type V = PolicyEntryModel;

    open spec fn view(&self) -> PolicyEntryModel {
        PolicyEntryModel {
            subjects: self.subjects@.map_values(|s: (String, Subject)| (s.0@, s.1.kind@)),
            resources: self.resources@.map_values(|r: (Resource, Permissions)| (r.0@, r.1@)),
        }
    }
}

/// The mathematical value of a [`Policy`].
pub struct PolicyModel {
    pub policy_id: EntityIdModel,
    pub entries: Seq<(Seq<char>, PolicyEntryModel)>,
}

impl PolicyModel {
    /// No entry label twice, and every entry well formed.
    pub open spec fn wf(self) -> bool {
        &&& distinct_keys(self.entries)
        &&& forall|i: int| 0 <= i < self.entries.len() ==> (#[trigger] self.entries[i]).1.wf()
    }
}

impl View for Policy {
    type V = PolicyModel;

    open spec fn view(&self) -> PolicyModel {
        PolicyModel {
            policy_id: self.policy_id@,
            entries: self.entries@.map_values(|e: (String, PolicyEntry)| (e.0@, e.1@)),
        }
    }
}

impl core::str::FromStr for EntityId {
    type Err = String;

    /// As [`EntityId::parse`].
    fn from_str(s: &str) -> (r: Result<EntityId, String>)
        ensures
            match r {
                Ok(e) => entity_id_of(s@) == Some(e@),
                Err(m) => entity_id_of(s@) is None && m@ == "Invalid policy ID"@,
            },
    {
        EntityId::parse(s)
    }
}

impl core::str::FromStr for Resource {
    type Err = String;

    /// As [`Resource::parse`].
    fn from_str(s: &str) -> (r: Result<Resource, String>)
        ensures
            match r {
                Ok(res) => resource_of(s@) == Some(res@),
                Err(m) => resource_of(s@) is None && m@ == "Invalid policy ID"@,
            },
    {
        Resource::parse(s)
    }
}

} // verus!
