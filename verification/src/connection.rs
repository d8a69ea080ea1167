//! The life of one connection: from the upgrade of the request, through
//! relaying and draining, to the cleanup of its registry entry.

use tokio::sync::mpsc::UnboundedSender;
use vstd::prelude::*;
use warp::ws::Message;

verus! {

/// Where a connection stands.
#[derive(Debug, Clone, Copy, PartialEq, Eq, Structural)]
pub enum ConnectionState {
    /// The request has arrived and is not yet upgraded.
    Connecting,
    /// The connection is registered; messages are relayed and inbound
    /// frames drained.
    Active,
    /// The connection is over; its registry entry, if it had one, has been
    /// given up.
    Closing,
}

/// What happens to a connection.
#[derive(Debug, Clone, Copy, PartialEq, Eq, Structural)]
pub enum ConnectionEvent {
    /// The request was upgraded to a persistent duplex channel.
    Upgraded,
    /// A message waits on the connection's outbound channel.
    OutboundReady,
    /// A frame arrived from the peer.
    InboundFrame,
    /// The peer closed the connection, or reading from it failed.
    PeerClosed,
    /// Writing to the wire failed.
    WriteFailed,
    /// The process shuts down.
    Shutdown,
}

/// What the handler of a connection does next.
#[derive(Debug, Clone, Copy, PartialEq, Eq, Structural)]
pub enum ConnectionAction {
    /// Open the outbound channel and register the connection.
    Register,
    /// Write the waiting message to the wire.
    Forward,
    /// Drop the inbound frame.
    Discard,
    /// Remove the connection from the registry and end the handler.
    Unregister,
    /// Nothing.
    Ignore,
}

impl ConnectionEvent {
    /// The event ends the connection.
    pub open spec fn closes(self) -> bool {
        self == ConnectionEvent::PeerClosed || self == ConnectionEvent::WriteFailed || self
            == ConnectionEvent::Shutdown
    }
}

/// The state that follows `state` on `event`.
pub open spec fn next_state(state: ConnectionState, event: ConnectionEvent) -> ConnectionState {
    match state {
        ConnectionState::Connecting => if event == ConnectionEvent::Upgraded {
            ConnectionState::Active
        } else if event.closes() {
            ConnectionState::Closing
        } else {
            ConnectionState::Connecting
        },
        ConnectionState::Active => if event.closes() {
            ConnectionState::Closing
        } else {
            ConnectionState::Active
        },
        ConnectionState::Closing => ConnectionState::Closing,
    }
}

/// The action that `event` calls for in `state`.
pub open spec fn action_for(state: ConnectionState, event: ConnectionEvent) -> ConnectionAction {
    match state {
        ConnectionState::Connecting => if event == ConnectionEvent::Upgraded {
            ConnectionAction::Register
        } else {
            ConnectionAction::Ignore
        },
        ConnectionState::Active => match event {
            ConnectionEvent::Upgraded => ConnectionAction::Ignore,
            ConnectionEvent::OutboundReady => ConnectionAction::Forward,
            ConnectionEvent::InboundFrame => ConnectionAction::Discard,
            _ => ConnectionAction::Unregister,
        },
        ConnectionState::Closing => ConnectionAction::Ignore,
    }
}

/// Advances a connection by one event: the state it is in afterwards and
/// what its handler does.
pub fn step(state: ConnectionState, event: ConnectionEvent) -> (next: (
    ConnectionState,
    ConnectionAction,
))
    ensures
        next.0 == next_state(state, event),
        next.1 == action_for(state, event),
{
    match state {
        ConnectionState::Connecting => match event {
            ConnectionEvent::Upgraded => (ConnectionState::Active, ConnectionAction::Register),
            ConnectionEvent::PeerClosed
            | ConnectionEvent::WriteFailed
            | ConnectionEvent::Shutdown => (ConnectionState::Closing, ConnectionAction::Ignore),
            _ => (ConnectionState::Connecting, ConnectionAction::Ignore),
        },
        ConnectionState::Active => match event {
            ConnectionEvent::Upgraded => (ConnectionState::Active, ConnectionAction::Ignore),
            ConnectionEvent::OutboundReady => (ConnectionState::Active, ConnectionAction::Forward),
            ConnectionEvent::InboundFrame => (ConnectionState::Active, ConnectionAction::Discard),
            _ => (ConnectionState::Closing, ConnectionAction::Unregister),
        },
        ConnectionState::Closing => (ConnectionState::Closing, ConnectionAction::Ignore),
    }
}

/// The state of a connection that started in `state` and met `events`.
pub open spec fn state_after(state: ConnectionState, events: Seq<ConnectionEvent>) -> ConnectionState
    decreases events.len(),
{
    if events.len() == 0 {
        state
    } else {
        state_after(next_state(state, events[0]), events.drop_first())
    }
}

/// The actions of a handler whose connection started in `state` and met
/// `events`, one action for each event.
pub open spec fn actions_of(state: ConnectionState, events: Seq<ConnectionEvent>) -> Seq<
    ConnectionAction,
>
    decreases events.len(),
{
    if events.len() == 0 {
        Seq::<ConnectionAction>::empty()
    } else {
        seq![action_for(state, events[0])] + actions_of(
            next_state(state, events[0]),
            events.drop_first(),
        )
    }
}

/// How often `action` stands in `actions`.
pub open spec fn occurrences(actions: Seq<ConnectionAction>, action: ConnectionAction) -> nat
    decreases actions.len(),
{
    if actions.len() == 0 {
        0
    } else {
        (if actions[0] == action {
            1nat
        } else {
            0nat
        }) + occurrences(actions.drop_first(), action)
    }
}

/// The registry after a handler has carried out `actions` for the
/// connection `id` with the channel handle `sender`.
pub open spec fn registry_after(
    registry: Map<u128, UnboundedSender<Message>>,
    id: u128,
    sender: UnboundedSender<Message>,
    actions: Seq<ConnectionAction>,
) -> Map<u128, UnboundedSender<Message>>
    decreases actions.len(),
{
    if actions.len() == 0 {
        registry
    } else {
        let now = match actions[0] {
            ConnectionAction::Register => registry.insert(id, sender),
            ConnectionAction::Unregister => registry.remove(id),
            _ => registry,
        };
        registry_after(now, id, sender, actions.drop_first())
    }
}

proof fn lemma_counts_from(state: ConnectionState, events: Seq<ConnectionEvent>)
    ensures
        ({
            let end = state_after(state, events);
            let actions = actions_of(state, events);
            let registered = occurrences(actions, ConnectionAction::Register);
            let unregistered = occurrences(actions, ConnectionAction::Unregister);
            match state {
                ConnectionState::Connecting => match end {
                    ConnectionState::Connecting => registered == 0 && unregistered == 0,
                    ConnectionState::Active => registered == 1 && unregistered == 0,
                    ConnectionState::Closing => registered == unregistered && registered <= 1,
                },
                ConnectionState::Active => match end {
                    ConnectionState::Connecting => false,
                    ConnectionState::Active => registered == 0 && unregistered == 0,
                    ConnectionState::Closing => registered == 0 && unregistered == 1,
                },
                ConnectionState::Closing => end == ConnectionState::Closing && registered == 0
                    && unregistered == 0,
            }
        }),
    decreases events.len(),
{
    if events.len() > 0 {
        let first = action_for(state, events[0]);
        let rest = actions_of(next_state(state, events[0]), events.drop_first());
        assert((seq![first] + rest).drop_first() =~= rest);
        lemma_counts_from(next_state(state, events[0]), events.drop_first());
    }
}

proof fn lemma_registry_from(
    state: ConnectionState,
    events: Seq<ConnectionEvent>,
    registry: Map<u128, UnboundedSender<Message>>,
    id: u128,
    sender: UnboundedSender<Message>,
)
    requires
        state == ConnectionState::Active ==> registry.contains_key(id),
    ensures
        ({
            let end = state_after(state, events);
            let after = registry_after(registry, id, sender, actions_of(state, events));
            match state {
                ConnectionState::Connecting => match end {
                    ConnectionState::Connecting => after == registry,
                    ConnectionState::Active => after == registry.insert(id, sender),
                    ConnectionState::Closing => after == registry || after == registry.remove(id),
                },
                ConnectionState::Active => match end {
                    ConnectionState::Connecting => false,
                    ConnectionState::Active => after == registry,
                    ConnectionState::Closing => after == registry.remove(id),
                },
                ConnectionState::Closing => end == ConnectionState::Closing && after == registry,
            }
        }),
    decreases events.len(),
{
    if events.len() > 0 {
        let first = action_for(state, events[0]);
        let rest = actions_of(next_state(state, events[0]), events.drop_first());
        assert((seq![first] + rest).drop_first() =~= rest);
        let now = match first {
            ConnectionAction::Register => registry.insert(id, sender),
            ConnectionAction::Unregister => registry.remove(id),
            _ => registry,
        };
        lemma_registry_from(next_state(state, events[0]), events.drop_first(), now, id, sender);
        assert(registry.insert(id, sender).remove(id) =~= registry.remove(id));
    }
}

/// Whatever events a connection meets, its handler registers it at most
/// once, and unregisters it exactly once if it was registered and is over:
/// no way out of the active state leaves the entry behind.
pub proof fn law_one_cleanup_per_registration(events: Seq<ConnectionEvent>)
    ensures
        ({
            let end = state_after(ConnectionState::Connecting, events);
            let actions = actions_of(ConnectionState::Connecting, events);
            let registered = occurrences(actions, ConnectionAction::Register);
            let unregistered = occurrences(actions, ConnectionAction::Unregister);
            &&& registered <= 1
            &&& end == ConnectionState::Connecting ==> registered == 0 && unregistered == 0
            &&& end == ConnectionState::Active ==> registered == 1 && unregistered == 0
            &&& end == ConnectionState::Closing ==> unregistered == registered
        }),
{
    lemma_counts_from(ConnectionState::Connecting, events);
}

/// A connection that registers, lives for a while and then ends leaves the
/// registry without its identifier, and otherwise as it found it.
pub proof fn law_closed_connection_is_absent(
    events: Seq<ConnectionEvent>,
    registry: Map<u128, UnboundedSender<Message>>,
    id: u128,
    sender: UnboundedSender<Message>,
)
    requires
        !registry.contains_key(id),
        state_after(ConnectionState::Connecting, events) == ConnectionState::Closing,
    ensures
        registry_after(
            registry,
            id,
            sender,
            actions_of(ConnectionState::Connecting, events),
        ) == registry,
{
    lemma_registry_from(ConnectionState::Connecting, events, registry, id, sender);
    assert(registry.remove(id) =~= registry);
}

} // verus!
