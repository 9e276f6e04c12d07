//! Scoped device identifiers.
use crate::command::{get_string_extension, string_extension};
use crate::event::{with_extension, Event, EventModel, ExtensionValue, ExtensionValueModel};
use vstd::prelude::*;

verus! {

/// A scoped device ID.
#[derive(Clone, Debug, PartialEq, Eq, Hash)]
pub struct Id {
    pub app_id: String,
    pub device_id: String,
}

/// The mathematical value of an [`Id`].
pub struct IdModel {
    pub app_id: Seq<char>,
    pub device_id: Seq<char>,
}

impl View for Id {
    type V = IdModel;

    open spec fn view(&self) -> IdModel {
        IdModel { app_id: self.app_id@, device_id: self.device_id@ }
    }
}

impl Id {
    /// Create a new scoped device ID.
    pub fn new(app_id: String, device_id: String) -> (r: Id)
        ensures
            r.app_id@ == app_id@,
            r.device_id@ == device_id@,
    {
        Id { app_id, device_id }
    }

    /// The two IDs are the same.
    pub fn same(&self, other: &Id) -> (r: bool)
        ensures
            r == (self@ == other@),
    {
        self.app_id == other.app_id && self.device_id == other.device_id
    }
}


/// The id that an event carries: its application and device extensions, where both are
/// strings.
pub open spec fn id_of_event(ev: EventModel) -> Option<IdModel> {
    match (string_extension(ev.extensions, "application"@), string_extension(ev.extensions, "device"@)) {
        (Some(a), Some(d)) => Some(IdModel { app_id: a, device_id: d }),
        _ => None,
    }
}

impl Id {
    /// The id that an event carries.
    pub fn from_event(event: &Event) -> (r: Option<Id>)
        ensures
            match r {
                Some(id) => id_of_event(event@) == Some(id@),
                None => id_of_event(event@) is None,
            },
    {
        match (get_string_extension(event, "application"), get_string_extension(event, "device")) {
            (Some(a), Some(d)) => Some(Id::new(a.clone(), d.clone())),
            _ => None,
        }
    }
}

/// Adds the parts of an id to a value.
pub trait IdInjector {
    fn inject(self, id: Id) -> Self;
}

impl IdInjector for Event {
    /// Sets the application and device extensions.
    fn inject(self, id: Id) -> (r: Event)
        ensures
            r@ == (EventModel {
                extensions: with_extension(
                    with_extension(
                        self@.extensions,
                        "application"@,
                        ExtensionValueModel::String(id.app_id@),
                    ),
                    "device"@,
                    ExtensionValueModel::String(id.device_id@),
                ),
                ..self@
            }),
    {
        let mut event = self;
        event.set_extension("application", ExtensionValue::String(id.app_id));
        event.set_extension("device", ExtensionValue::String(id.device_id));
        event
    }
}

} // verus!
