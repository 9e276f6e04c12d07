//! Commands routed to devices by their scoped id: each device that waits for commands has
//! one receiver.
use crate::id::{Id, IdModel};
use vstd::prelude::*;

verus! {

/// A command for a device.
#[derive(Clone, Debug, PartialEq, Eq)]
pub struct Command {
    pub device_id: Id,
    pub command: String,
}

impl Command {
    /// Create a new scoped command.
    pub fn new(device_id: Id, command: String) -> (r: Command)
        ensures
            r.device_id == device_id,
            r.command@ == command@,
    {
        Command { device_id, command }
    }
}

/// The receivers of a list of entries, by device id; a later entry for an id wins.
pub open spec fn receivers<T>(entries: Seq<(Id, T)>) -> Map<IdModel, T>
    decreases entries.len(),
{
    if entries.len() == 0 {
        Map::empty()
    } else {
        receivers(entries.drop_last()).insert(entries.last().0@, entries.last().1)
    }
}

/// No device id occurs twice.
pub open spec fn unique_ids<T>(entries: Seq<(Id, T)>) -> bool {
    forall|i: int, j: int| 0 <= i < j < entries.len() ==> entries[i].0@ != entries[j].0@
}

/// The receivers of commands, by the device they are for.
pub struct Commands<T> {
    devices: Vec<(Id, T)>,
}

impl<T> View for Commands<T> {
    type V = Map<IdModel, T>;

    closed spec fn view(&self) -> Map<IdModel, T> {
        receivers(self.devices@)
    }
}

/// The device ids of a list of entries.
proof fn lemma_receivers_dom<T>(entries: Seq<(Id, T)>, k: IdModel)
    ensures
        receivers(entries).contains_key(k) <==> exists|i: int|
            0 <= i < entries.len() && #[trigger] entries[i].0@ == k,
    decreases entries.len(),
{
    if entries.len() > 0 {
        lemma_receivers_dom(entries.drop_last(), k);
        if exists|i: int| 0 <= i < entries.len() && #[trigger] entries[i].0@ == k {
            let i = choose|i: int| 0 <= i < entries.len() && #[trigger] entries[i].0@ == k;
            if i < entries.len() - 1 {
                assert(entries.drop_last()[i].0@ == k);
            }
        }
        if exists|i: int| 0 <= i < entries.len() - 1 && #[trigger] entries.drop_last()[i].0@ == k {
            let i = choose|i: int| 0 <= i < entries.len() - 1 && #[trigger] entries.drop_last()[i].0@ == k;
            assert(entries[i].0@ == k);
        }
    }
}

/// With unique ids, the receiver of the id at position `i` is its entry's.
proof fn lemma_receivers_at<T>(entries: Seq<(Id, T)>, i: int)
    requires
        unique_ids(entries),
        0 <= i < entries.len(),
    ensures
        receivers(entries).contains_key(entries[i].0@),
        receivers(entries)[entries[i].0@] == entries[i].1,
    decreases entries.len(),
{
    if i < entries.len() - 1 {
        lemma_receivers_at(entries.drop_last(), i);
    }
}

/// Removing the entry at `i` removes its id, with unique ids.
proof fn lemma_receivers_remove<T>(entries: Seq<(Id, T)>, i: int)
    requires
        unique_ids(entries),
        0 <= i < entries.len(),
    ensures
        receivers(entries.remove(i)) == receivers(entries).remove(entries[i].0@),
    decreases entries.len(),
{
    let k = entries[i].0@;
    if i == entries.len() - 1 {
        assert(entries.remove(i) =~= entries.drop_last());
        lemma_receivers_dom(entries.drop_last(), k);
        assert(!receivers(entries.drop_last()).contains_key(k));
        assert(receivers(entries).remove(k) =~= receivers(entries.drop_last()));
    } else {
        lemma_receivers_remove(entries.drop_last(), i);
        assert(entries.remove(i).drop_last() =~= entries.drop_last().remove(i));
        assert(entries.remove(i).last() == entries.last());
        assert(entries.last().0@ != k);
        assert(receivers(entries.remove(i)) =~= receivers(entries).remove(k));
    }
}

impl<T> Commands<T> {
    /// No device id occurs twice.
    pub closed spec fn wf(&self) -> bool {
        unique_ids(self.devices@)
    }

    /// No receivers.
    pub fn new() -> (r: Commands<T>)
        ensures
            r.wf(),
            r@ == Map::<IdModel, T>::empty(),
    {
        Commands { devices: Vec::new() }
    }

    /// Finds the position of a device's entry.
    fn position(&self, device_id: &Id) -> (r: Option<usize>)
        requires
            self.wf(),
        ensures
            match r {
                Some(i) => i < self.devices@.len() && self.devices@[i as int].0@ == device_id@,
                None => !self@.contains_key(device_id@),
            },
    {
        let mut i: usize = 0;
        while i < self.devices.len()
            invariant
                i <= self.devices@.len(),
                forall|j: int| 0 <= j < i ==> self.devices@[j].0@ != device_id@,
            decreases self.devices@.len() - i,
        {
            if self.devices[i].0.same(device_id) {
                return Some(i);
            }
            i += 1;
        }
        proof {
            lemma_receivers_dom(self.devices@, device_id@);
        }
        None
    }

    /// The receiver of a device's commands, if it waits for any.
    pub fn receiver(&self, device_id: &Id) -> (r: Option<&T>)
        requires
            self.wf(),
        ensures
            match r {
                Some(t) => self@.contains_key(device_id@) && self@[device_id@] == *t,
                None => !self@.contains_key(device_id@),
            },
    {
        match self.position(device_id) {
            Some(i) => {
                proof {
                    lemma_receivers_at(self.devices@, i as int);
                }
                Some(&self.devices[i].1)
            },
            None => None,
        }
    }

    /// Routes a command to the receiver of its device; the error where the device waits
    /// for no commands.
    pub fn send(&self, msg: &Command) -> (r: Result<&T, String>)
        requires
            self.wf(),
        ensures
            match r {
                Ok(t) => self@.contains_key(msg.device_id@) && self@[msg.device_id@] == *t,
                Err(e) => !self@.contains_key(msg.device_id@) && e@ == "Device not found"@,
            },
    {
        match self.receiver(&msg.device_id) {
            Some(t) => Ok(t),
            None => Err("Device not found".to_owned()),
        }
    }

    /// A device waits for commands with this receiver, in place of any earlier one.
    pub fn subscribe(&mut self, device_id: Id, receiver: T)
        requires
            old(self).wf(),
        ensures
            final(self).wf(),
            final(self)@ == old(self)@.insert(device_id@, receiver),
    {
        let ghost before = self.devices@;
        match self.position(&device_id) {
            Some(i) => {
                proof {
                    lemma_receivers_remove(before, i as int);
                }
                self.devices.remove(i);
                let ghost removed = self.devices@;
                self.devices.push((device_id, receiver));
                proof {
                    assert(self.devices@.drop_last() =~= removed);
                    assert forall|a: int, b: int| 0 <= a < b < self.devices@.len() implies self.devices@[a].0@
                        != self.devices@[b].0@ by {
                        if b == self.devices@.len() - 1 {
                            let k = before[i as int].0@;
                            let ai = if a < i { a } else { a + 1 };
                            assert(removed[a] == before[ai]);
                        } else {
                            let ai = if a < i { a } else { a + 1 };
                            let bi = if b < i { b } else { b + 1 };
                            assert(removed[a] == before[ai]);
                            assert(removed[b] == before[bi]);
                        }
                    }
                    assert(receivers(self.devices@) =~= receivers(before).remove(device_id@).insert(
                        device_id@,
                        receiver,
                    ));
                    assert(receivers(before).remove(device_id@).insert(device_id@, receiver)
                        =~= receivers(before).insert(device_id@, receiver));
                }
            },
            None => {
                self.devices.push((device_id, receiver));
                proof {
                    assert(self.devices@.drop_last() =~= before);
                    lemma_receivers_dom(before, device_id@);
                }
            },
        }
    }

    /// A device no longer waits for commands.
    pub fn unsubscribe(&mut self, device_id: &Id)
        requires
            old(self).wf(),
        ensures
            final(self).wf(),
            final(self)@ == old(self)@.remove(device_id@),
    {
        let ghost before = self.devices@;
        match self.position(device_id) {
            Some(i) => {
                proof {
                    lemma_receivers_remove(before, i as int);
                }
                self.devices.remove(i);
                proof {
                    assert forall|a: int, b: int| 0 <= a < b < self.devices@.len() implies self.devices@[a].0@
                        != self.devices@[b].0@ by {
                        let ai = if a < i { a } else { a + 1 };
                        let bi = if b < i { b } else { b + 1 };
                        assert(self.devices@[a] == before[ai]);
                        assert(self.devices@[b] == before[bi]);
                    }
                }
            },
            None => {
                assert(receivers(before).remove(device_id@) =~= receivers(before));
            },
        }
    }
}

/// A command for a subscribed device reaches the receiver it subscribed with.
pub proof fn lemma_send_after_subscribe<T>(m: Map<IdModel, T>, id: IdModel, receiver: T)
    ensures
        m.insert(id, receiver).contains_key(id),
        m.insert(id, receiver)[id] == receiver,
{
}

/// An unsubscribed device receives no commands; other devices keep their receivers.
pub proof fn lemma_unsubscribe_removes<T>(m: Map<IdModel, T>, id: IdModel, other: IdModel)
    requires
        other != id,
    ensures
        !m.remove(id).contains_key(id),
        m.remove(id).contains_key(other) == m.contains_key(other),
        m.contains_key(other) ==> m.remove(id)[other] == m[other],
{
}

} // verus!
