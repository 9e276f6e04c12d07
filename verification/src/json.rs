//! JSON values as the library reads them.
use vstd::prelude::*;

verus! {

/// A JSON value. Numbers keep their text form; object members keep their order.
#[derive(Debug, PartialEq, Eq)]
pub enum JsonValue {
    Null,
    Bool(bool),
    Number(String),
    String(String),
    Array(Vec<JsonValue>),
    Object(Vec<(String, JsonValue)>),
}

/// The first member of `members` named `key`, if any.
pub open spec fn member_of(members: Seq<(String, JsonValue)>, key: Seq<char>) -> Option<JsonValue>
    decreases members.len(),
{
    if members.len() == 0 {
        None
    } else if members[0].0@ == key {
        Some(members[0].1)
    } else {
        member_of(members.drop_first(), key)
    }
}

/// The member of an object named `key`; `None` where there is none or `v` is no object.
pub open spec fn member_or_none(v: JsonValue, key: Seq<char>) -> Option<JsonValue> {
    match v {
        JsonValue::Object(members) => member_of(members@, key),
        _ => None,
    }
}

/// The text of a string value (as `serde_json::Value::as_str`), `None` for any other.
pub open spec fn as_str(v: JsonValue) -> Option<Seq<char>> {
    match v {
        JsonValue::String(s) => Some(s@),
        _ => None,
    }
}

/// Finds the first member named `key`.
pub fn find_member<'a>(members: &'a Vec<(String, JsonValue)>, key: &str) -> (r: Option<&'a JsonValue>)
    ensures
        match r {
            Some(v) => member_of(members@, key@) == Some(*v),
            None => member_of(members@, key@) is None,
        },
{
    let mut i: usize = 0;
    assert(members@.skip(0) =~= members@);
    while i < members.len()
        invariant
            i <= members@.len(),
            member_of(members@, key@) == member_of(members@.skip(i as int), key@),
        decreases members@.len() - i,
    {
        assert(members@.skip(i as int).drop_first() =~= members@.skip(i + 1));
        if crate::text::str_is(members[i].0.as_str(), key) {
            return Some(&members[i].1);
        }
        i += 1;
    }
    None
}

impl JsonValue {
    /// The member of an object named `key`; `None` where there is none or the value is
    /// no object (where `serde_json::Value`'s index by a string gives `null`).
    pub fn get<'a>(&'a self, key: &str) -> (r: Option<&'a JsonValue>)
        ensures
            match r {
                Some(v) => member_or_none(*self, key@) == Some(*v),
                None => member_or_none(*self, key@) is None,
            },
    {
        match self {
            JsonValue::Object(members) => find_member(members, key),
            _ => None,
        }
    }

    /// The text of a string value, `None` for any other.
    pub fn as_str(&self) -> (r: Option<&str>)
        ensures
            match r {
                Some(s) => as_str(*self) == Some(s@),
                None => as_str(*self) is None,
            },
    {
        match self {
            JsonValue::String(s) => Some(s.as_str()),
            _ => None,
        }
    }
}

} // verus!
