//! The connection registry.

use crate::boundary::{random_id, second_handle, text_frame};
use std::collections::HashMap;
use tokio::sync::mpsc::error::SendError;
use tokio::sync::mpsc::{unbounded_channel, UnboundedReceiver, UnboundedSender};
use vstd::prelude::*;
use vstd::std_specs::iter::IteratorSpec;
use warp::ws::Message;

verus! {

broadcast use vstd::std_specs::hash::group_hash_axioms;

/// Why a registration was refused.
#[derive(Debug, Clone, Copy, PartialEq, Eq, Structural)]
pub enum RegistryError {
    /// The identifier is already registered.
    AlreadyRegistered,
}

/// One attempt to hand a message to a connection.
#[derive(Debug, Clone, Copy, PartialEq, Eq, Structural)]
pub struct Delivery {
    /// The connection the message was meant for.
    pub id: u128,
    /// Whether its channel took the message.
    pub delivered: bool,
}

impl Delivery {
    /// The record of a send to `id` that ended in `sent`: delivered exactly
    /// when the channel took the message.
    pub fn record(id: u128, sent: &Result<(), SendError<Message>>) -> (delivery: Delivery)
        ensures
            delivery.id == id,
            delivery.delivered == sent.is_ok(),
    {
        Delivery { id, delivered: sent.is_ok() }
    }
}

/// The identifiers a list of deliveries was addressed to, in order.
pub open spec fn recipients(deliveries: Seq<Delivery>) -> Seq<u128> {
    deliveries.map_values(|d: Delivery| d.id)
}

/// How many of `deliveries` were addressed to `id`.
pub open spec fn attempts(deliveries: Seq<Delivery>, id: u128) -> nat {
    recipients(deliveries).to_multiset().count(id)
}

/// The deliveries were addressed to the connections in `registered`, one
/// delivery for each of them and none for anyone else.
pub open spec fn reaches_each_once(deliveries: Seq<Delivery>, registered: Set<u128>) -> bool {
    &&& recipients(deliveries).no_duplicates()
    &&& recipients(deliveries).to_set() == registered
}

/// One entry of a snapshot: an identifier and a handle on its channel.
pub struct Recipient {
    id: u128,
    sender: UnboundedSender<Message>,
}

/// The connections that were registered at one moment, each with a handle
/// on its channel. A snapshot stays as it is while the registry changes.
pub struct Snapshot {
    entries: Vec<Recipient>,
}

impl View for Snapshot {
    type V = Seq<u128>;

    closed spec fn view(&self) -> Seq<u128> {
        self.entries@.map_values(|r: Recipient| r.id)
    }
}

impl Snapshot {
    /// The number of connections in the snapshot.
    pub fn len(&self) -> (n: usize)
        ensures
            n == self@.len(),
    {
        self.entries.len()
    }

    /// Sends `text` as a text frame to every connection of the snapshot, in
    /// order, one attempt each. A channel that refuses the frame is recorded
    /// as not delivered and the rest are still visited.
    pub fn deliver(&self, text: &str) -> (report: Vec<Delivery>)
        ensures
            recipients(report@) == self@,
    {
        let mut report: Vec<Delivery> = Vec::new();
        let mut i: usize = 0;
        while i < self.entries.len()
            invariant
                i <= self.entries@.len(),
                report@.len() == i,
                forall|j: int| 0 <= j < i ==> report@[j].id == self.entries@[j].id,
            decreases self.entries@.len() - i,
        {
            let entry = &self.entries[i];
            let sent = entry.sender.send(text_frame(text));
            report.push(Delivery::record(entry.id, &sent));
            i += 1;
        }
        assert(recipients(report@) =~= self@);
        report
    }
}

/// The mapping from connection identifier to the sending half of that
/// connection's outbound channel.
pub struct Registry {
    outboxes: HashMap<u128, UnboundedSender<Message>>,
}

impl View for Registry {
    type V = Map<u128, UnboundedSender<Message>>;

    closed spec fn view(&self) -> Map<u128, UnboundedSender<Message>> {
        self.outboxes@
    }
}

impl Registry {
    /// An empty registry.
    pub fn new() -> (registry: Registry)
        ensures
            registry@ == Map::<u128, UnboundedSender<Message>>::empty(),
    {
        Registry { outboxes: HashMap::new() }
    }

    /// The number of registered connections.
    pub fn len(&self) -> (n: usize)
        ensures
            n == self@.len(),
            self@.dom().finite(),
    {
        self.outboxes.len()
    }

    /// Whether `id` is registered.
    pub fn contains(&self, id: u128) -> (found: bool)
        ensures
            found == self@.contains_key(id),
    {
        self.outboxes.contains_key(&id)
    }

    /// Registers `sender` under `id`.
    pub fn register(&mut self, id: u128, sender: UnboundedSender<Message>) -> (outcome: Result<
        (),
        RegistryError,
    >)
        ensures
            old(self)@.contains_key(id) ==> outcome == Err::<(), RegistryError>(
                RegistryError::AlreadyRegistered,
            ) && final(self)@ == old(self)@,
            !old(self)@.contains_key(id) ==> outcome.is_ok() && final(self)@ == old(self)@.insert(
                id,
                sender,
            ),
    {
        if self.outboxes.contains_key(&id) {
            Err(RegistryError::AlreadyRegistered)
        } else {
            self.outboxes.insert(id, sender);
            Ok(())
        }
    }

    /// Removes `id`; does nothing where it is absent.
    pub fn unregister(&mut self, id: u128) -> (removed: bool)
        ensures
            removed == old(self)@.contains_key(id),
            final(self)@ == old(self)@.remove(id),
    {
        self.outboxes.remove(&id).is_some()
    }

    /// Opens the outbound channel of a new connection and registers its
    /// sending half under a freshly drawn identifier. Returns the identifier
    /// with the receiving half. Where the identifier drawn is already
    /// registered, nothing is registered; so an empty registry, in which no
    /// identifier can be taken, always accepts the connection.
    pub fn connect(&mut self) -> (opened: Result<(u128, UnboundedReceiver<Message>), RegistryError>)
        ensures
            (forall|taken: u128| !old(self)@.contains_key(taken)) ==> opened is Ok,
            match opened {
                Ok((id, _)) => {
                    &&& !old(self)@.contains_key(id)
                    &&& final(self)@.contains_key(id)
                    &&& final(self)@.remove(id) == old(self)@
                },
                Err(e) => e == RegistryError::AlreadyRegistered && final(self)@ == old(self)@,
            },
    {
        let id = random_id();
        let (sender, receiver) = unbounded_channel::<Message>();
        match self.register(id, sender) {
            Ok(()) => {
                assert(self@.remove(id) =~= old(self)@);
                Ok((id, receiver))
            },
            Err(e) => Err(e),
        }
    }

    /// Sends `text` as a text frame to every connection registered now, one
    /// attempt each. A connection whose channel is closed is recorded as not
    /// delivered; it stays registered until it unregisters itself.
    pub fn broadcast(&self, text: &str) -> (report: Vec<Delivery>)
        ensures
            reaches_each_once(report@, self@.dom()),
    {
        self.snapshot().deliver(text)
    }

    /// The connections registered now, each once, in the order in which a
    /// later delivery will visit them.
    pub fn snapshot(&self) -> (snapshot: Snapshot)
        ensures
            snapshot@.no_duplicates(),
            snapshot@.to_set() == self@.dom(),
    {
        let mut entries: Vec<Recipient> = Vec::new();
        let ghost pairs = self.outboxes.iter().remaining();
        for pair in it: self.outboxes.iter()
            invariant
                it.seq() == pairs,
                entries@.len() == it.index(),
                forall|j: int| 0 <= j < entries@.len() ==> entries@[j].id == *pairs[j].0,
        {
            let (id, sender) = pair;
            entries.push(Recipient { id: *id, sender: second_handle(sender) });
        }
        let snapshot = Snapshot { entries };
        proof {
            let ids = snapshot@;
            let outboxes = self.outboxes@;
            assert(ids.len() == pairs.len());
            assert forall|i: int, j: int| 0 <= i < ids.len() && 0 <= j < ids.len() && i != j implies ids[i]
                != ids[j] by {
                assert(outboxes.contains_key(*pairs[i].0) && outboxes[*pairs[i].0] == *pairs[i].1);
                assert(outboxes.contains_key(*pairs[j].0) && outboxes[*pairs[j].0] == *pairs[j].1);
                if ids[i] == ids[j] {
                    assert(pairs[i] == pairs[j]);
                }
            }
            assert forall|id: u128| ids.to_set().contains(id) <==> outboxes.dom().contains(id) by {
                if ids.to_set().contains(id) {
                    let i = choose|i: int| 0 <= i < ids.len() && ids[i] == id;
                    assert(outboxes.contains_key(*pairs[i].0));
                }
                if outboxes.dom().contains(id) {
                    assert(pairs.contains((&id, &outboxes[id])));
                    let i = choose|i: int| 0 <= i < pairs.len() && pairs[i] == (&id, &outboxes[id]);
                    assert(ids[i] == id);
                }
            }
            assert(ids.to_set() =~= outboxes.dom());
        }
        snapshot
    }
}

/// A delivery to a snapshot makes exactly one attempt for every connection
/// that was registered when the snapshot was taken and none for any other,
/// whatever was registered or unregistered since. A closed channel costs
/// its own connection the message and nobody else.
pub proof fn law_each_registered_connection_is_attempted_once(
    registered: Map<u128, UnboundedSender<Message>>,
    snapshot: Seq<u128>,
    report: Seq<Delivery>,
    id: u128,
)
    requires
        snapshot.no_duplicates(),
        snapshot.to_set() == registered.dom(),
        recipients(report) == snapshot,
    ensures
        reaches_each_once(report, registered.dom()),
        attempts(report, id) == if registered.contains_key(id) {
            1nat
        } else {
            0nat
        },
{
    snapshot.lemma_multiset_has_no_duplicates();
    snapshot.to_multiset_ensures();
    assert(snapshot.contains(id) <==> snapshot.to_set().contains(id));
}

/// Unregistering an identifier a second time changes nothing and finds
/// nothing to remove.
pub proof fn law_unregister_is_idempotent(
    registered: Map<u128, UnboundedSender<Message>>,
    id: u128,
)
    ensures
        !registered.remove(id).contains_key(id),
        registered.remove(id).remove(id) == registered.remove(id),
{
    assert(registered.remove(id).remove(id) =~= registered.remove(id));
}

/// Registering a new identifier and unregistering it again gives back the
/// registry as it was.
pub proof fn law_register_then_unregister(
    registered: Map<u128, UnboundedSender<Message>>,
    id: u128,
    sender: UnboundedSender<Message>,
)
    requires
        !registered.contains_key(id),
    ensures
        !registered.insert(id, sender).remove(id).contains_key(id),
        registered.insert(id, sender).remove(id) == registered,
{
    assert(registered.insert(id, sender).remove(id) =~= registered);
}

} // verus!
