//! The CONNECT→CONNACK handshake and PING/PONG liveness notifications.
//!
//! The handshake walks `Disconnected → ConnectSent → Connected`; a CONNACK in
//! any state but `ConnectSent` violates the protocol. A broadcast signal
//! wakes every ping waiter when a PINGRESP arrives.

use std::sync::Arc;

use vstd::prelude::*;

use tokio::sync::Notify;

use crate::notify::{clone_notify, fresh_notify, notify_one, notify_waiters, Completion};
use crate::packet::{ConnAck, Connect, Disconnect, Packet};

verus! {

/// Where the handshake stands; while a CONNECT awaits its answer the stage
/// carries the signal that the CONNACK fires.
pub ghost enum ConnectStage {
    Disconnected,
    ConnectSent(Arc<Notify>),
    Connected,
}

enum ConnectState {
    Disconnected,
    ConnectSent(Arc<Notify>),
    Connected,
}

/// Per-connection state machine for the session handshake and liveness.
pub struct ConnectHandler {
    state: ConnectState,
    ping_notify: Arc<Notify>,
}

impl View for ConnectHandler {
    type V = ConnectStage;

    closed spec fn view(&self) -> ConnectStage {
        match self.state {
            ConnectState::Disconnected => ConnectStage::Disconnected,
            ConnectState::ConnectSent(n) => ConnectStage::ConnectSent(n),
            ConnectState::Connected => ConnectStage::Connected,
        }
    }
}

impl ConnectHandler {
    /// The broadcast signal every ping waiter parks on.
    pub closed spec fn ping_signal(&self) -> Arc<Notify> {
        self.ping_notify
    }

    /// A handler that has not started its handshake.
    pub fn new() -> (r: ConnectHandler)
        ensures
            r@ is Disconnected,
    {
        ConnectHandler { state: ConnectState::Disconnected, ping_notify: fresh_notify() }
    }

    /// Whether the handshake has completed.
    pub fn is_connected(&self) -> (r: bool)
        ensures
            r == (self@ is Connected),
    {
        match self.state {
            ConnectState::Connected => true,
            _ => false,
        }
    }

    /// Whether a CONNECT awaits its CONNACK.
    pub fn is_awaiting_connack(&self) -> (r: bool)
        ensures
            r == (self@ is ConnectSent),
    {
        match self.state {
            ConnectState::ConnectSent(_) => true,
            _ => false,
        }
    }

    /// A CONNECT is about to go out: the returned signal is the one the
    /// stage stores, and the CONNACK fires it.
    pub fn connect(&mut self, _connect: &mut Connect) -> (r: Completion)
        ensures
            (r matches Completion::Wait(n) && final(self)@ == ConnectStage::ConnectSent(n)),
            final(_connect)@ == old(_connect)@,
            final(self).ping_signal() == old(self).ping_signal(),
    {
        let n = fresh_notify();
        self.state = ConnectState::ConnectSent(clone_notify(&n));
        Completion::Wait(n)
    }

    /// The broker accepted the handshake: wake the connecting caller.
    ///
    /// A CONNACK is only legal while a CONNECT awaits its answer.
    pub fn connack(&mut self, _connack: ConnAck) -> (r: Vec<Packet>)
        requires
            old(self)@ is ConnectSent,
        ensures
            final(self)@ is Connected,
            final(self).ping_signal() == old(self).ping_signal(),
            r@ == Seq::<Packet>::empty(),
    {
        if let ConnectState::ConnectSent(n) = &self.state {
            notify_one(n);
        }
        self.state = ConnectState::Connected;
        Vec::new()
    }

    /// A DISCONNECT is about to go out: the session ends immediately.
    pub fn disconnect(&mut self, _disconnect: &mut Disconnect) -> (r: Completion)
        ensures
            final(self)@ is Disconnected,
            final(self).ping_signal() == old(self).ping_signal(),
            *final(_disconnect) == *old(_disconnect),
            r is Immediate,
    {
        self.state = ConnectState::Disconnected;
        Completion::Immediate
    }

    /// A PINGREQ is about to go out: the returned signal is the connection's
    /// ping signal, which the next PINGRESP fires.
    pub fn ping(&self) -> (r: Completion)
        ensures
            (r matches Completion::Wait(n) && n == self.ping_signal()),
    {
        Completion::Wait(clone_notify(&self.ping_notify))
    }

    /// A PINGRESP arrived: wake everyone waiting on the ping signal.
    pub fn pong(&self) -> (r: Vec<Packet>)
        ensures
            r@ == Seq::<Packet>::empty(),
    {
        notify_waiters(&self.ping_notify);
        Vec::new()
    }
}

} // verus!
