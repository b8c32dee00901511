//! Shared event and command vocabulary of the subscription subsystem.

use vstd::prelude::*;

verus! {

/// One category of real-time feed. Each kind is managed by its own
/// controller and its own upstream connection; kinds never share one.
#[derive(Clone, Copy, PartialEq, Eq, Structural, Debug)]
pub enum StreamKind {
    OrderBook,
    TradePrints,
    Price,
    UserData,
}

/// A capability token referencing one connect-epoch of one stream's
/// connection. It routes commands; it does not guarantee liveness, and it
/// becomes inert once its epoch ends.
#[derive(Clone, Copy, PartialEq, Eq, Structural, Debug)]
pub struct ConnectionHandle {
    pub kind: StreamKind,
    pub epoch: u64,
}

/// A lifecycle event of one stream: the connection came up (yielding the
/// handle for this epoch), it went down, or it decoded one payload. A
/// `Message` carries the subscription key the payload originated from,
/// so that stale payloads of an abandoned connection can be recognized.
pub enum LifecycleEvent<T> {
    Connected(ConnectionHandle),
    Disconnected,
    Message(String, T),
}

/// A request, produced by a controller, to open a fresh upstream
/// connection for `key`, tagged with the connect-epoch that the
/// connection's events must carry.
pub struct ConnectRequest {
    pub key: String,
    pub epoch: u64,
}

/// The side effects one controller step asks its surroundings to perform,
/// in this order: re-emit `Disconnected` downstream, re-emit `Connected`
/// downstream, tear down the in-flight connection, open a new connection.
pub struct Effects {
    pub emit_disconnected: bool,
    pub emit_connected: Option<ConnectionHandle>,
    pub close: bool,
    pub connect: Option<ConnectRequest>,
}

/// A retarget command addressed to the controller of one stream kind.
pub struct RetargetCommand {
    pub kind: StreamKind,
    pub key: String,
}

impl Effects {
    /// An effects record that asks for nothing.
    pub open spec fn is_none(self) -> bool {
        &&& !self.emit_disconnected
        &&& self.emit_connected is None
        &&& !self.close
        &&& self.connect is None
    }

    /// An effects record that asks the surroundings for nothing.
    pub fn none_needed() -> (e: Effects)
        ensures
            e.is_none(),
    {
        Effects { emit_disconnected: false, emit_connected: None, close: false, connect: None }
    }
}

} // verus!
