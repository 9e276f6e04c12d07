//! What the endpoints read of the registry's applications and devices.
use crate::json::JsonValue;
use vstd::prelude::*;

verus! {

/// A condition of a resource's status: its type and status (`"True"`, `"False"`, ...).
#[derive(Clone, Debug, PartialEq, Eq)]
pub struct Condition {
    pub condition_type: String,
    pub status: String,
}

/// An application of the registry.
#[derive(Debug, PartialEq, Eq)]
pub struct Application {
    pub name: String,
    pub uid: String,
    /// The conditions of its status section, where it has one.
    pub conditions: Option<Vec<Condition>>,
}

/// A device of the registry.
#[derive(Debug, PartialEq, Eq)]
pub struct Device {
    pub name: String,
    pub uid: String,
    /// The members of its `spec` object.
    pub spec: Vec<(String, JsonValue)>,
}

} // verus!
