//! A poll-driven WebSocket channel whose decisions are kept apart from its
//! input and output.
//!
//! Every operation of the channel is a step: it takes the current handle and
//! what the transport just reported, and gives back the next handle together
//! with what has to be done on the transport. The crate never touches a socket
//! itself, so every step is total, never blocks and never aborts.

use vstd::prelude::*;

pub mod frame;
pub mod laws;
pub mod pc;
pub mod state;
pub mod url;
pub mod wasm;

verus! {

pub use crate::state::QuadWsState;
pub use crate::frame::{Frame, ReadAction, RecvError};
pub use crate::url::Scheme;

use crate::frame::{frame_option_view, polled_view, FrameView};
use crate::pc::{
    closed,
    on_wire,
    opened,
    read_action,
    read_client,
    revive_attempt,
    revived,
    ws_close_rust,
    ws_open_plan,
    ws_open_rust,
    ws_read_rust,
    ws_revive_plan,
    ws_revive_rust,
    ws_state_rust,
    ws_write_rust,
    ConnectionView,
    WsChannnel,
};
use crate::url::{scheme_of, url_usable};

/// The channel that callers hold. It owns one handle and is the only way to
/// that handle.
pub struct QuadWs {
    channel: WsChannnel,
}

impl View for QuadWs {
    type V = ConnectionView;

    closed spec fn view(&self) -> ConnectionView {
        self.channel@
    }
}

/// The model of a channel that may be absent.
pub open spec fn channel_view(channel: Option<QuadWs>) -> Option<ConnectionView> {
    match channel {
        Some(channel) => Some(channel@),
        None => None,
    }
}

impl QuadWs {
    /// The transport over which a handshake for `url` has to be attempted
    /// before `new`, or `None` when the URL is not usable.
    pub fn open_plan(url: &str) -> (plan: Option<Scheme>)
        ensures
            plan == (if url_usable(url@) {
                Some(scheme_of(url@))
            } else {
                None
            }),
    {
        ws_open_plan(url)
    }

    /// Opens a channel for `url`, given whether the handshake was
    /// established. There is no channel when the URL is not usable; after a
    /// failed handshake the channel is disconnected.
    pub fn new(url: String, established: bool) -> (channel: Option<Self>)
        ensures
            channel_view(channel) == opened(url@, url_usable(url@), established),
    {
        let conn = ws_open_rust(url, established);
        if conn.is_none() {
            return None;
        }
        Some(Self { channel: conn.unwrap() })
    }

    /// The URL that the channel was opened for.
    pub fn url(&self) -> (url: &str)
        ensures
            url@ == self@.url,
    {
        self.channel.url()
    }

    /// Writes `data` as one binary frame. The result is the frame to put on
    /// the wire; `None` means that nothing is sent and the write has failed.
    /// The channel does not change either way.
    pub fn write(&mut self, data: Vec<u8>) -> (wire: Option<Frame>)
        ensures
            *final(self) == *old(self),
            frame_option_view(wire) == on_wire(old(self)@.client, FrameView::Binary(data@)),
    {
        ws_write_rust(&mut self.channel, data)
    }

    /// Closes the channel. The result says whether the transport has to be
    /// shut down; the channel is closed whether or not that succeeds.
    pub fn close(&mut self) -> (shutdown: bool)
        ensures
            final(self)@.url == old(self)@.url,
            final(self)@.client == closed(old(self)@.client),
            shutdown == old(self)@.client.live(),
    {
        ws_close_rust(&mut self.channel)
    }

    /// Applies one poll of the transport. `polled` is what the attached
    /// client received; a channel without a client does not look at it.
    pub fn read(&mut self, polled: Result<Frame, RecvError>) -> (action: ReadAction)
        ensures
            final(self)@.url == old(self)@.url,
            final(self)@.client == read_client(old(self)@.client, polled_view(polled)),
            action@ == read_action(old(self)@.client, polled_view(polled)),
    {
        ws_read_rust(&mut self.channel, polled)
    }

    /// Whether the channel is connected.
    pub fn connected(&mut self) -> (yes: bool)
        ensures
            *final(self) == *old(self),
            yes == (old(self)@.client.state() == QuadWsState::WsConnected),
            yes == old(self)@.client.live(),
    {
        if let QuadWsState::WsConnected = self.state() {
            return true;
        }
        false
    }

    /// The transport over which `revive` has to attempt a handshake, or
    /// `None` when there is nothing to attempt.
    pub fn revive_plan(&self) -> (plan: Option<Scheme>)
        ensures
            plan == revive_attempt(self@, url_usable(self@.url)),
    {
        ws_revive_plan(&self.channel)
    }

    /// Makes one attempt to reconnect, given whether the handshake that
    /// `revive_plan` asked for was established. A connected channel is left
    /// as it is.
    pub fn revive(&mut self, established: bool)
        ensures
            final(self)@ == revived(old(self)@, url_usable(old(self)@.url), established),
    {
        ws_revive_rust(&mut self.channel, established);
    }

    /// The state of the channel.
    pub fn state(&mut self) -> (state: QuadWsState)
        ensures
            *final(self) == *old(self),
            state == old(self)@.client.state(),
    {
        let state = ws_state_rust(&mut self.channel);
        QuadWsState::from_code(state)
    }
}

} // verus!
