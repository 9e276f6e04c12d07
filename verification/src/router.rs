//! Routing commands to the connections of the devices that wait for them, by device id.
use crate::command::{get_string_extension, string_extension};
use crate::event::{Data, DataModel, Event, EventModel};
use crate::text::str_is;
use vstd::prelude::*;
use vstd::utf8::{decode_utf8, valid_utf8};

verus! {

/// A command for a device: its id and the command's text.
#[derive(Clone, Debug, PartialEq, Eq)]
pub struct CommandMessage {
    pub device_id: String,
    pub command: String,
}

/// A connection subscribes to the commands of a device.
#[derive(Clone, Debug, PartialEq, Eq)]
pub struct CommandSubscribe<T>(pub String, pub T);

/// A connection no longer wants the commands of a device.
#[derive(Clone, Debug, PartialEq, Eq)]
pub struct CommandUnsubscribe(pub String);

/// The text of an event's data: a string as it is, bytes as the text they encode (they
/// must be UTF-8), JSON as written (`json_text`).
pub open spec fn data_text(data: DataModel, json_text: Option<Seq<char>>) -> Seq<char> {
    match data {
        DataModel::String(s) => s,
        DataModel::Binary(b) => decode_utf8(b),
        DataModel::Json(_) => json_text->0,
    }
}

/// The event has data that reads as text: bytes that are UTF-8, or JSON whose text is
/// given.
pub open spec fn has_text_data(ev: EventModel, json_text: Option<Seq<char>>) -> bool {
    match ev.data {
        Some(DataModel::String(_)) => true,
        Some(DataModel::Binary(b)) => valid_utf8(b),
        Some(DataModel::Json(_)) => json_text is Some,
        None => false,
    }
}

/// The command message of an event: the device named by its `deviceid` extension (a
/// string), and its data as text; the error where it names no device.
pub fn command_message(event: &Event, json_text: Option<String>) -> (r: Result<CommandMessage, String>)
    requires
        string_extension(event@.extensions, "deviceid"@) is Some ==> has_text_data(
            event@,
            crate::event::opt_text(json_text),
        ),
    ensures
        match string_extension(event@.extensions, "deviceid"@) {
            Some(d) => r matches Ok(m) && m.device_id@ == d && m.command@ == data_text(
                event@.data->0,
                crate::event::opt_text(json_text),
            ),
            None => r matches Err(e) && e@ == "No device-id provided"@,
        },
{
    match get_string_extension(event, "deviceid") {
        Some(device_id) => {
            let command = match &event.data {
                Some(Data::String(s)) => s.clone(),
                Some(Data::Binary(b)) => match crate::auth::utf8_string(b.clone()) {
                    Ok(s) => s,
                    Err(_) => {
                        proof {
                            assert(false);
                        }
                        String::new()
                    },
                },
                Some(Data::Json(_)) => match json_text {
                    Some(t) => t,
                    None => {
                        proof {
                            assert(false);
                        }
                        String::new()
                    },
                },
                None => {
                    proof {
                        assert(false);
                    }
                    String::new()
                },
            };
            Ok(CommandMessage { device_id: device_id.clone(), command })
        },
        None => Err("No device-id provided".to_owned()),
    }
}

/// The connections of a list of entries, by device id; a later entry for an id wins.
pub open spec fn routes<T>(entries: Seq<(String, T)>) -> Map<Seq<char>, T>
    decreases entries.len(),
{
    if entries.len() == 0 {
        Map::empty()
    } else {
        routes(entries.drop_last()).insert(entries.last().0@, entries.last().1)
    }
}

/// No device id occurs twice.
pub open spec fn distinct_ids<T>(entries: Seq<(String, T)>) -> bool {
    forall|i: int, j: int| 0 <= i < j < entries.len() ==> entries[i].0@ != entries[j].0@
}

/// The ids that have a connection are those of the entries.
proof fn lemma_routes_dom<T>(entries: Seq<(String, T)>, k: Seq<char>)
    ensures
        routes(entries).contains_key(k) <==> exists|i: int|
            0 <= i < entries.len() && #[trigger] entries[i].0@ == k,
    decreases entries.len(),
{
    if entries.len() > 0 {
        lemma_routes_dom(entries.drop_last(), k);
        if exists|i: int| 0 <= i < entries.len() && #[trigger] entries[i].0@ == k {
            let i = choose|i: int| 0 <= i < entries.len() && #[trigger] entries[i].0@ == k;
            if i < entries.len() - 1 {
                assert(entries.drop_last()[i].0@ == k);
            }
        }
        if exists|i: int| 0 <= i < entries.len() - 1 && #[trigger] entries.drop_last()[i].0@ == k {
            let i = choose|i: int| 0 <= i < entries.len() - 1 && #[trigger] entries.drop_last()[i].0@ == k;
            assert(entries[i].0@ == k);
        }
    }
}

/// With distinct ids, the connection of the id at position `i` is its entry's.
proof fn lemma_routes_at<T>(entries: Seq<(String, T)>, i: int)
    requires
        distinct_ids(entries),
        0 <= i < entries.len(),
    ensures
        routes(entries).contains_key(entries[i].0@),
        routes(entries)[entries[i].0@] == entries[i].1,
    decreases entries.len(),
{
    if i < entries.len() - 1 {
        lemma_routes_at(entries.drop_last(), i);
    }
}

/// Removing the entry at `i` removes its id, with distinct ids.
proof fn lemma_routes_remove<T>(entries: Seq<(String, T)>, i: int)
    requires
        distinct_ids(entries),
        0 <= i < entries.len(),
    ensures
        routes(entries.remove(i)) == routes(entries).remove(entries[i].0@),
    decreases entries.len(),
{
    let k = entries[i].0@;
    if i == entries.len() - 1 {
        assert(entries.remove(i) =~= entries.drop_last());
        lemma_routes_dom(entries.drop_last(), k);
        assert(routes(entries).remove(k) =~= routes(entries.drop_last()));
    } else {
        lemma_routes_remove(entries.drop_last(), i);
        assert(entries.remove(i).drop_last() =~= entries.drop_last().remove(i));
        assert(entries.remove(i).last() == entries.last());
        assert(entries.last().0@ != k);
        assert(routes(entries.remove(i)) =~= routes(entries).remove(k));
    }
}

/// Routes commands to the connections of devices, by device id.
pub struct CommandRouter<T> {
    devices: Vec<(String, T)>,
}

impl<T> View for CommandRouter<T> {
    type V = Map<Seq<char>, T>;

    closed spec fn view(&self) -> Map<Seq<char>, T> {
        routes(self.devices@)
    }
}

impl<T> CommandRouter<T> {
    /// No device id occurs twice.
    pub closed spec fn wf(&self) -> bool {
        distinct_ids(self.devices@)
    }

    /// A router without connections.
    pub fn new() -> (r: CommandRouter<T>)
        ensures
            r.wf(),
            r@ == Map::<Seq<char>, T>::empty(),
    {
        CommandRouter { devices: Vec::new() }
    }

    /// Finds the position of a device's entry.
    fn position(&self, id: &str) -> (r: Option<usize>)
        requires
            self.wf(),
        ensures
            match r {
                Some(i) => i < self.devices@.len() && self.devices@[i as int].0@ == id@,
                None => !self@.contains_key(id@),
            },
    {
        let mut i: usize = 0;
        while i < self.devices.len()
            invariant
                i <= self.devices@.len(),
                forall|j: int| 0 <= j < i ==> self.devices@[j].0@ != id@,
            decreases self.devices@.len() - i,
        {
            if str_is(self.devices[i].0.as_str(), id) {
                return Some(i);
            }
            i += 1;
        }
        proof {
            lemma_routes_dom(self.devices@, id@);
        }
        None
    }

    /// Where a command message goes: the connection of its device, if it waits for
    /// commands at this endpoint.
    pub fn handle(&self, msg: &CommandMessage) -> (r: Option<&T>)
        requires
            self.wf(),
        ensures
            match r {
                Some(t) => self@.contains_key(msg.device_id@) && self@[msg.device_id@] == *t,
                None => !self@.contains_key(msg.device_id@),
            },
    {
        match self.position(msg.device_id.as_str()) {
            Some(i) => {
                proof {
                    lemma_routes_at(self.devices@, i as int);
                }
                Some(&self.devices[i].1)
            },
            None => None,
        }
    }

    /// A connection subscribes to a device's commands, in place of any earlier one.
    pub fn subscribe(&mut self, msg: CommandSubscribe<T>)
        requires
            old(self).wf(),
        ensures
            final(self).wf(),
            final(self)@ == old(self)@.insert(msg.0@, msg.1),
    {
        let CommandSubscribe(id, device) = msg;
        let ghost before = self.devices@;
        match self.position(id.as_str()) {
            Some(i) => {
                proof {
                    lemma_routes_remove(before, i as int);
                }
                self.devices.remove(i);
                let ghost removed = self.devices@;
                self.devices.push((id, device));
                proof {
                    assert(self.devices@.drop_last() =~= removed);
                    assert forall|a: int, b: int| 0 <= a < b < self.devices@.len() implies self.devices@[a].0@
                        != self.devices@[b].0@ by {
                        let ai = if a < i { a } else { a + 1 };
                        assert(removed[a] == before[ai]);
                        if b < self.devices@.len() - 1 {
                            let bi = if b < i { b } else { b + 1 };
                            assert(removed[b] == before[bi]);
                        }
                    }
                    assert(routes(self.devices@) =~= routes(before).remove(id@).insert(id@, device));
                    assert(routes(before).remove(id@).insert(id@, device) =~= routes(before).insert(
                        id@,
                        device,
                    ));
                }
            },
            None => {
                self.devices.push((id, device));
                proof {
                    assert(self.devices@.drop_last() =~= before);
                    lemma_routes_dom(before, id@);
                }
            },
        }
    }

    /// A device's commands are no longer routed here.
    pub fn unsubscribe(&mut self, msg: CommandUnsubscribe)
        requires
            old(self).wf(),
        ensures
            final(self).wf(),
            final(self)@ == old(self)@.remove(msg.0@),
    {
        let ghost before = self.devices@;
        match self.position(msg.0.as_str()) {
            Some(i) => {
                proof {
                    lemma_routes_remove(before, i as int);
                }
                self.devices.remove(i);
                proof {
                    assert forall|a: int, b: int| 0 <= a < b < self.devices@.len() implies self.devices@[a].0@
                        != self.devices@[b].0@ by {
                        let ai = if a < i { a } else { a + 1 };
                        let bi = if b < i { b } else { b + 1 };
                        assert(self.devices@[a] == before[ai]);
                        assert(self.devices@[b] == before[bi]);
                    }
                }
            },
            None => {
                assert(routes(before).remove(msg.0@) =~= routes(before));
            },
        }
    }
}

/// A command for a device that has just subscribed goes to the connection it subscribed
/// with; once it has unsubscribed its commands go nowhere; other devices keep their
/// connections either way.
pub proof fn lemma_routing_follows_subscriptions<T>(
    routes: Map<Seq<char>, T>,
    id: Seq<char>,
    connection: T,
    other: Seq<char>,
)
    requires
        other != id,
    ensures
        routes.insert(id, connection).contains_key(id),
        routes.insert(id, connection)[id] == connection,
        !routes.remove(id).contains_key(id),
        routes.insert(id, connection).contains_key(other) == routes.contains_key(other),
        routes.remove(id).contains_key(other) == routes.contains_key(other),
        routes.contains_key(other) ==> routes.insert(id, connection)[other] == routes[other]
            && routes.remove(id)[other] == routes[other],
{
}

} // verus!
