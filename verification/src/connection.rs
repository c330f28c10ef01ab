//! The connection lifecycle: one attempt's signals — connected, connection
//! error, disconnected — each on its own channel, produced exactly once at
//! the transition that owns it and consumed through the same bridge and drain
//! discipline as every other event.

use vstd::prelude::*;
use crate::bridge::EventChannel;
use crate::buffer::BufferReader;
use crate::events::StdbConnectedEvent;
use crate::events::StdbConnectionErrorEvent;
use crate::events::StdbDisconnectedEvent;

verus! {

/// Where one connection attempt stands. An attempt that fails before the
/// handshake ends in `Failed`; an established connection that later drops
/// ends in `Disconnected`. Reconnection is a new bridge, not a transition.
#[derive(Debug, Clone, Copy, PartialEq, Eq, Structural)]
pub enum ConnectionState {
    /// No attempt was started yet.
    Idle,
    /// The attempt was started and its outcome is pending.
    Connecting,
    /// The handshake succeeded; the connection is live.
    Connected,
    /// The attempt failed before a connection was established.
    Failed,
    /// An established connection ended.
    Disconnected,
}

/// One connection attempt's lifecycle and its three event streams. The
/// well-formedness invariant ties the streams to the state: each signal is
/// carried exactly once, by the transition that owns it.
pub struct ConnectionBridge {
    /// Where the attempt stands.
    pub state: ConnectionState,
    /// The stream carrying the connected signal.
    pub connected: EventChannel<StdbConnectedEvent>,
    /// The stream carrying the disconnected signal.
    pub disconnected: EventChannel<StdbDisconnectedEvent>,
    /// The stream carrying the connection-error signal.
    pub errors: EventChannel<StdbConnectionErrorEvent>,
}

impl ConnectionBridge {
    /// Each lifecycle signal was carried exactly as often as its transition
    /// was taken: once each, and only in the states that follow it.
    pub open spec fn wf(&self) -> bool {
        &&& self.connected.carried().len() == if self.state is Connected || self.state
            is Disconnected {
            1int
        } else {
            0int
        }
        &&& self.errors.carried().len() == if self.state is Failed {
            1int
        } else {
            0int
        }
        &&& self.disconnected.carried().len() == if self.state is Disconnected {
            1int
        } else {
            0int
        }
    }

    /// A fresh lifecycle: idle, nothing carried.
    pub fn new() -> (bridge: Self)
        ensures
            bridge.state is Idle,
            bridge.wf(),
            bridge.connected.queued() == Seq::<StdbConnectedEvent>::empty(),
            bridge.connected.buffered() == Seq::<StdbConnectedEvent>::empty(),
            bridge.disconnected.queued() == Seq::<StdbDisconnectedEvent>::empty(),
            bridge.disconnected.buffered() == Seq::<StdbDisconnectedEvent>::empty(),
            bridge.errors.queued() == Seq::<StdbConnectionErrorEvent>::empty(),
            bridge.errors.buffered() == Seq::<StdbConnectionErrorEvent>::empty(),
    {
        ConnectionBridge {
            state: ConnectionState::Idle,
            connected: EventChannel::new(),
            disconnected: EventChannel::new(),
            errors: EventChannel::new(),
        }
    }

    /// Reads the state.
    pub fn state(&self) -> (state: ConnectionState)
        ensures
            state == self.state,
    {
        self.state
    }

    /// Begins the attempt. No signal is produced: the outcome is pending.
    pub fn start_connect(&mut self)
        requires
            old(self).state is Idle,
            old(self).wf(),
        ensures
            final(self).state is Connecting,
            final(self).wf(),
            final(self).connected == old(self).connected,
            final(self).disconnected == old(self).disconnected,
            final(self).errors == old(self).errors,
    {
        self.state = ConnectionState::Connecting;
    }

    /// The handshake succeeded: produces the one connected signal, carrying
    /// the identity and the token the connection was given.
    pub fn on_connect(&mut self, identity: u64, access_token: String)
        requires
            old(self).state is Connecting,
            old(self).wf(),
        ensures
            final(self).state is Connected,
            final(self).wf(),
            final(self).connected.queued() == old(self).connected.queued().push(
                (StdbConnectedEvent { identity, access_token }),
            ),
            final(self).connected.buffered() == old(self).connected.buffered(),
            final(self).disconnected == old(self).disconnected,
            final(self).errors == old(self).errors,
    {
        self.connected.send(StdbConnectedEvent { identity, access_token });
        self.state = ConnectionState::Connected;
    }

    /// The attempt failed before the handshake: produces the one
    /// connection-error signal. No connected signal was or will be produced
    /// for this attempt.
    pub fn on_connect_error(&mut self, err: String)
        requires
            old(self).state is Connecting,
            old(self).wf(),
        ensures
            final(self).state is Failed,
            final(self).wf(),
            final(self).errors.queued() == old(self).errors.queued().push(
                (StdbConnectionErrorEvent { err }),
            ),
            final(self).errors.buffered() == old(self).errors.buffered(),
            final(self).connected == old(self).connected,
            final(self).disconnected == old(self).disconnected,
    {
        self.errors.send(StdbConnectionErrorEvent { err });
        self.state = ConnectionState::Failed;
    }

    /// The established connection ended: produces the one disconnected
    /// signal, with the error that ended it, if one did.
    pub fn on_disconnect(&mut self, err: Option<String>)
        requires
            old(self).state is Connected,
            old(self).wf(),
        ensures
            final(self).state is Disconnected,
            final(self).wf(),
            final(self).disconnected.queued() == old(self).disconnected.queued().push(
                (StdbDisconnectedEvent { err }),
            ),
            final(self).disconnected.buffered() == old(self).disconnected.buffered(),
            final(self).connected == old(self).connected,
            final(self).errors == old(self).errors,
    {
        self.disconnected.send(StdbDisconnectedEvent { err });
        self.state = ConnectionState::Disconnected;
    }

    /// The bridge task's step for the lifecycle streams: drains all three
    /// into their buffers. The state and what each stream carries stay put.
    pub fn tick(&mut self)
        ensures
            final(self).state == old(self).state,
            final(self).wf() == old(self).wf(),
            final(self).connected.buffered() == old(self).connected.buffered() + old(
                self,
            ).connected.queued(),
            final(self).connected.queued() == Seq::<StdbConnectedEvent>::empty(),
            final(self).disconnected.buffered() == old(self).disconnected.buffered() + old(
                self,
            ).disconnected.queued(),
            final(self).disconnected.queued() == Seq::<StdbDisconnectedEvent>::empty(),
            final(self).errors.buffered() == old(self).errors.buffered() + old(
                self,
            ).errors.queued(),
            final(self).errors.queued() == Seq::<StdbConnectionErrorEvent>::empty(),
    {
        self.connected.tick();
        self.disconnected.tick();
        self.errors.tick();
    }

    /// Everything the connected stream buffered since `reader` last read.
    pub fn read_new_connected(&self, reader: &mut BufferReader) -> (batch: Vec<
        StdbConnectedEvent,
    >)
        requires
            self.connected.reader_valid(old(reader)),
        ensures
            batch@ == self.connected.buffered().subrange(
                old(reader)@,
                self.connected.buffered().len() as int,
            ),
            final(reader)@ == self.connected.buffered().len(),
    {
        self.connected.read_new(reader)
    }

    /// Everything the disconnected stream buffered since `reader` last read.
    pub fn read_new_disconnected(&self, reader: &mut BufferReader) -> (batch: Vec<
        StdbDisconnectedEvent,
    >)
        requires
            self.disconnected.reader_valid(old(reader)),
        ensures
            batch@ == self.disconnected.buffered().subrange(
                old(reader)@,
                self.disconnected.buffered().len() as int,
            ),
            final(reader)@ == self.disconnected.buffered().len(),
    {
        self.disconnected.read_new(reader)
    }

    /// Everything the connection-error stream buffered since `reader` last
    /// read.
    pub fn read_new_errors(&self, reader: &mut BufferReader) -> (batch: Vec<
        StdbConnectionErrorEvent,
    >)
        requires
            self.errors.reader_valid(old(reader)),
        ensures
            batch@ == self.errors.buffered().subrange(
                old(reader)@,
                self.errors.buffered().len() as int,
            ),
            final(reader)@ == self.errors.buffered().len(),
    {
        self.errors.read_new(reader)
    }
}

/// Law: a connection attempt that failed before the handshake produced
/// exactly one connection-error signal, no connected signal and no
/// disconnected signal.
pub proof fn lemma_failed_attempt_signals(bridge: &ConnectionBridge)
    requires
        bridge.wf(),
        bridge.state is Failed,
    ensures
        bridge.errors.carried().len() == 1,
        bridge.connected.carried().len() == 0,
        bridge.disconnected.carried().len() == 0,
{
}

/// Law: the lifecycle signals are mutually exclusive facts about one
/// attempt. Each is carried at most once; an error excludes a connection;
/// a disconnection presupposes one.
pub proof fn lemma_lifecycle_signals_exclusive(bridge: &ConnectionBridge)
    requires
        bridge.wf(),
    ensures
        bridge.connected.carried().len() <= 1,
        bridge.errors.carried().len() <= 1,
        bridge.disconnected.carried().len() <= 1,
        bridge.errors.carried().len() == 1 ==> bridge.connected.carried().len() == 0,
        bridge.disconnected.carried().len() == 1 ==> bridge.connected.carried().len() == 1,
{
}

} // verus!
