//! The connection state that a channel reports, and its wire codes.

use vstd::prelude::*;

verus! {

/// What a channel reports about its connection.
#[derive(Clone, Copy, Debug, PartialEq, Eq, Structural)]
pub enum QuadWsState {
    /// Never connected, or the last attempt to connect failed.
    WsDisconnected,
    /// The transport is established and usable.
    WsConnected,
    /// Shut down by the caller, or failed for good.
    WsClosed,
}

/// The state that a raw code stands for. A backend may report any integer;
/// whatever is not the code of `WsDisconnected` or `WsConnected` reads as
/// `WsClosed`.
pub open spec fn decode(code: int) -> QuadWsState {
    if code == 0 {
        QuadWsState::WsDisconnected
    } else if code == 1 {
        QuadWsState::WsConnected
    } else {
        QuadWsState::WsClosed
    }
}

impl QuadWsState {
    /// The code under which a backend reports this state.
    pub open spec fn code(self) -> int {
        match self {
            QuadWsState::WsDisconnected => 0,
            QuadWsState::WsConnected => 1,
            QuadWsState::WsClosed => 2,
        }
    }

    /// Reads a raw code defensively: codes outside `0..=2` give `WsClosed`.
    pub fn from_code(code: i32) -> (state: QuadWsState)
        ensures
            state == decode(code as int),
            (code < 0 || code > 2) ==> state == QuadWsState::WsClosed,
    {
        if code < 0 || code > 2 {
            return QuadWsState::WsClosed;
        }
        if code == 0 {
            QuadWsState::WsDisconnected
        } else if code == 1 {
            QuadWsState::WsConnected
        } else {
            QuadWsState::WsClosed
        }
    }

    /// The raw code of this state.
    pub fn to_code(self) -> (code: i32)
        ensures
            code as int == self.code(),
    {
        match self {
            QuadWsState::WsDisconnected => 0,
            QuadWsState::WsConnected => 1,
            QuadWsState::WsClosed => 2,
        }
    }

    /// Whether this state is `WsConnected`.
    pub fn is_connected(self) -> (yes: bool)
        ensures
            yes == (self == QuadWsState::WsConnected),
    {
        match self {
            QuadWsState::WsConnected => true,
            _ => false,
        }
    }
}

} // verus!
