//! Kafka client settings: bootstrap servers and client properties.
use crate::text::str_is;
use vstd::prelude::*;

verus! {

/// The settings of a Kafka client: its bootstrap servers and its properties, each a name
/// and a value, in order.
#[derive(Clone, Debug, PartialEq, Eq)]
pub struct KafkaClientConfig {
    pub bootstrap_servers: String,
    pub properties: Vec<(String, String)>,
}

/// The Kafka settings of an endpoint: bootstrap servers and custom properties.
#[derive(Clone, Debug, PartialEq, Eq)]
pub struct KafkaConfig {
    pub bootstrap_servers: String,
    pub custom: Vec<(String, String)>,
}

/// No two properties have the same name: the properties form a map from names to values.
pub open spec fn distinct_names(props: Seq<(String, String)>) -> bool {
    forall|i: int, j: int| 0 <= i < j < props.len() ==> props[i].0@ != props[j].0@
}

impl KafkaClientConfig {
    /// Each property name occurs once.
    pub open spec fn wf(&self) -> bool {
        distinct_names(self.properties@)
    }
}

impl KafkaConfig {
    /// Each custom property name occurs once.
    pub open spec fn wf(&self) -> bool {
        distinct_names(self.custom@)
    }
}

/// The value of the first property named `name`, if any.
pub open spec fn property(props: Seq<(String, String)>, name: Seq<char>) -> Option<Seq<char>>
    decreases props.len(),
{
    if props.len() == 0 {
        None
    } else if props[0].0@ == name {
        Some(props[0].1@)
    } else {
        property(props.drop_first(), name)
    }
}

/// Looks up the value of a property.
pub fn get_property<'a>(props: &'a Vec<(String, String)>, name: &str) -> (r: Option<&'a String>)
    ensures
        match r {
            Some(v) => property(props@, name@) == Some(v@),
            None => property(props@, name@) is None,
        },
{
    let mut i: usize = 0;
    assert(props@.skip(0) =~= props@);
    while i < props.len()
        invariant
            i <= props@.len(),
            property(props@, name@) == property(props@.skip(i as int), name@),
        decreases props@.len() - i,
    {
        assert(props@.skip(i as int).drop_first() =~= props@.skip(i + 1));
        if str_is(props[i].0.as_str(), name) {
            return Some(&props[i].1);
        }
        i += 1;
    }
    None
}

} // verus!
