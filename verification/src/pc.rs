//! The native backend: a channel over a TCP or TLS socket.
//!
//! The handle records which kind of client is attached and the URL it was
//! opened for. The socket itself stays with the caller, who reports what it
//! did and carries out what each step asks for.

use vstd::prelude::*;

use crate::frame::{frame_option_view, polled_view, Frame, FrameView, ReadAction, ReadActionView, RecvError};
use crate::state::QuadWsState;
use crate::url::{is_secure_url, is_usable, scheme, scheme_of, url_usable, Scheme};

verus! {

/// Which client a handle has attached. Exactly one of these holds at a time.
#[derive(Clone, Copy, Debug, PartialEq, Eq, Structural)]
pub enum WsClient {
    /// Torn down by `ws_close_rust`.
    Closed,
    /// No client: never connected, or the peer went away.
    Disconnected,
    /// A client over plain TCP.
    Insecure,
    /// A client over TLS.
    Secure,
}

impl WsClient {
    /// A client is attached.
    pub open spec fn live(self) -> bool {
        self is Insecure || self is Secure
    }

    /// The state that a handle of this shape reports.
    pub open spec fn state(self) -> QuadWsState {
        match self {
            WsClient::Closed => QuadWsState::WsClosed,
            WsClient::Disconnected => QuadWsState::WsDisconnected,
            WsClient::Insecure => QuadWsState::WsConnected,
            WsClient::Secure => QuadWsState::WsConnected,
        }
    }

    /// Whether a client is attached.
    pub fn is_live(self) -> (live: bool)
        ensures
            live == self.live(),
    {
        match self {
            WsClient::Insecure => true,
            WsClient::Secure => true,
            _ => false,
        }
    }
}

/// A channel handle of the native backend.
pub struct WsConnection {
    client: WsClient,
    url: String,
}

pub type WsChannnel = WsConnection;

/// The model of a `WsConnection`.
pub struct ConnectionView {
    pub client: WsClient,
    pub url: Seq<char>,
}

impl View for WsConnection {
    type V = ConnectionView;

    closed spec fn view(&self) -> ConnectionView {
        ConnectionView { client: self.client, url: self.url@ }
    }
}

impl WsConnection {
    /// The URL that the handle was opened for.
    pub fn url(&self) -> (url: &str)
        ensures
            url@ == self@.url,
    {
        self.url.as_str()
    }

    /// The client that is attached.
    pub fn client(&self) -> (client: WsClient)
        ensures
            client == self@.client,
    {
        self.client
    }
}

/// Whether an attempt to connect counts as established: the handshake went
/// through and the socket was then put into non-blocking mode. A client that
/// would block its caller is not kept.
pub open spec fn is_established(handshake: bool, nonblocking: bool) -> bool {
    handshake && nonblocking
}

/// Whether an attempt to connect is established, given whether the handshake
/// went through and whether the socket could then be made non-blocking. The
/// result is what `ws_open_rust` and `ws_revive_rust` take as `established`.
pub fn attempt_established(handshake: bool, nonblocking: bool) -> (established: bool)
    ensures
        established == is_established(handshake, nonblocking),
{
    handshake && nonblocking
}

/// The client that an attempt to connect leaves attached: none when the
/// attempt was not established, else the one that the URL's scheme selects.
pub open spec fn attached(url: Seq<char>, established: bool) -> WsClient {
    if !established {
        WsClient::Disconnected
    } else if is_secure_url(url) {
        WsClient::Secure
    } else {
        WsClient::Insecure
    }
}

/// The handle that opening `url` gives, if any: none when the URL is not
/// usable, whatever the handshake did.
pub open spec fn opened(url: Seq<char>, usable: bool, established: bool) -> Option<ConnectionView> {
    if usable {
        Some(ConnectionView { client: attached(url, established), url })
    } else {
        None
    }
}

/// The model of a handle that may be absent.
pub open spec fn handle_view(handle: Option<WsConnection>) -> Option<ConnectionView> {
    match handle {
        Some(connection) => Some(connection@),
        None => None,
    }
}

/// The transport over which a handshake for `url` has to be attempted, or
/// `None` when the URL is not usable and nothing is to be attempted.
pub fn ws_open_plan(url: &str) -> (plan: Option<Scheme>)
    ensures
        plan == (if url_usable(url@) {
            Some(scheme_of(url@))
        } else {
            None
        }),
{
    if is_usable(url) {
        Some(scheme(url))
    } else {
        None
    }
}

/// Builds the handle for `url` from whether it was found usable and whether
/// the handshake was established.
pub fn open_with(url: String, usable: bool, established: bool) -> (handle: Option<WsChannnel>)
    ensures
        handle_view(handle) == opened(url@, usable, established),
{
    if !usable {
        return None;
    }
    let secure = scheme(url.as_str());
    if secure == Scheme::Wss {
        if !established {
            return Some(WsConnection { client: WsClient::Disconnected, url });
        }
        return Some(WsConnection { client: WsClient::Secure, url });
    }
    if !established {
        return Some(WsConnection { client: WsClient::Disconnected, url });
    }
    Some(WsConnection { client: WsClient::Insecure, url })
}

/// Opens a channel for `url`, given whether the handshake that
/// `ws_open_plan` asked for was established. A URL that is not usable,
/// because its authority is too heavy or because it does not parse, gives no
/// handle; a failed handshake gives a disconnected one, which
/// `ws_revive_rust` may connect later.
pub fn ws_open_rust(url: String, established: bool) -> (handle: Option<WsChannnel>)
    ensures
        handle_view(handle) == opened(url@, url_usable(url@), established),
{
    let usable = is_usable(url.as_str());
    open_with(url, usable, established)
}

/// The handshake that reviving `connection` has to attempt: none while a
/// client is attached, and none when the URL is not usable.
pub open spec fn revive_attempt(connection: ConnectionView, usable: bool) -> Option<Scheme> {
    if !connection.client.live() && usable {
        Some(scheme_of(connection.url))
    } else {
        None
    }
}

/// The handle after a revive. With a client attached nothing changes; without
/// one, and with a usable URL, the outcome of the handshake decides. A
/// closed handle is revived like a disconnected one, and a failed handshake
/// leaves either disconnected.
pub open spec fn revived(connection: ConnectionView, usable: bool, established: bool) -> ConnectionView {
    if connection.client.live() || !usable {
        connection
    } else {
        ConnectionView { client: attached(connection.url, established), url: connection.url }
    }
}

/// What a revive reports: `false` only when it could not even attempt a
/// handshake.
pub open spec fn revive_reports(connection: ConnectionView, usable: bool) -> bool {
    connection.client.live() || usable
}

/// The transport over which reviving `socket` has to attempt a handshake, or
/// `None` when there is nothing to attempt.
pub fn ws_revive_plan(socket: &WsChannnel) -> (plan: Option<Scheme>)
    ensures
        plan == revive_attempt(socket@, url_usable(socket@.url)),
{
    if socket.client.is_live() {
        return None;
    }
    ws_open_plan(socket.url.as_str())
}

/// Revives `socket` from whether its URL was found usable and whether the
/// handshake was established.
pub fn revive_with(socket: &mut WsChannnel, usable: bool, established: bool) -> (ok: bool)
    ensures
        final(socket)@ == revived(old(socket)@, usable, established),
        ok == revive_reports(old(socket)@, usable),
{
    match socket.client {
        WsClient::Insecure | WsClient::Secure => {
            return true;
        },
        _ => {},
    }
    if !usable {
        return false;
    }
    let secure = scheme(socket.url.as_str());
    if secure == Scheme::Wss {
        if !established {
            socket.client = WsClient::Disconnected;
            return true;
        }
        socket.client = WsClient::Secure;
        return true;
    }
    if !established {
        socket.client = WsClient::Disconnected;
        return true;
    }
    socket.client = WsClient::Insecure;
    true
}

/// Makes one attempt to reconnect `socket`, given whether the handshake that
/// `ws_revive_plan` asked for was established. A handle with a client
/// attached is left as it is.
pub fn ws_revive_rust(socket: &mut WsChannnel, established: bool) -> (ok: bool)
    ensures
        final(socket)@ == revived(old(socket)@, url_usable(old(socket)@.url), established),
        ok == revive_reports(old(socket)@, url_usable(old(socket)@.url)),
{
    let usable = socket.client.is_live() || is_usable(socket.url.as_str());
    revive_with(socket, usable, established)
}

/// The frame that goes on the wire when `data` is written to a handle of
/// this shape: `data` with a client attached, nothing without.
pub open spec fn on_wire(client: WsClient, data: FrameView) -> Option<FrameView> {
    if client.live() {
        Some(data)
    } else {
        None
    }
}

/// Decides whether `data` is sent: the result is the frame to put on the
/// wire, or `None` when the write fails at once. The handle does not change.
pub fn ws_write_raw(socket: &mut WsChannnel, data: Frame) -> (wire: Option<Frame>)
    ensures
        *final(socket) == *old(socket),
        frame_option_view(wire) == on_wire(old(socket)@.client, data@),
{
    match socket.client {
        WsClient::Closed => None,
        WsClient::Disconnected => None,
        WsClient::Insecure => Some(data),
        WsClient::Secure => Some(data),
    }
}

/// Writes `data` as a binary frame: the result is the frame to put on the
/// wire, or `None` when the write fails at once. The handle does not change.
pub fn ws_write_rust(socket: &mut WsChannnel, data: Vec<u8>) -> (wire: Option<Frame>)
    ensures
        *final(socket) == *old(socket),
        frame_option_view(wire) == on_wire(old(socket)@.client, FrameView::Binary(data@)),
{
    ws_write_raw(socket, Frame::Binary(data))
}

/// The client that stays attached after a read. A handle without a client
/// has no peer to observe and stays as it is: a closed one closed, a
/// disconnected one disconnected. With a client, a close frame and the loss of
/// the peer detach it, and nothing else changes it. A failure of the stream
/// other than `WouldBlock` is among what changes nothing: a connection that is
/// lost in that way stays attached until a poll reports `NoDataAvailable`.
pub open spec fn read_client(client: WsClient, polled: Result<FrameView, RecvError>) -> WsClient {
    if !client.live() {
        client
    } else {
        match polled {
            Ok(FrameView::Close(_)) => WsClient::Disconnected,
            Err(RecvError::NoDataAvailable) => WsClient::Disconnected,
            _ => client,
        }
    }
}

/// What a read asks of its caller: nothing without a client, whatever was
/// polled; with one, what the polled frame or failure calls for.
pub open spec fn read_action(client: WsClient, polled: Result<FrameView, RecvError>) -> ReadActionView {
    if !client.live() {
        ReadActionView::Idle
    } else {
        match polled {
            Ok(FrameView::Binary(data)) => ReadActionView::Deliver(data),
            Ok(FrameView::Ping(data)) => ReadActionView::Reply(FrameView::Pong(data)),
            Ok(FrameView::Close(_)) => ReadActionView::Hangup,
            Err(RecvError::NoDataAvailable) => ReadActionView::Hangup,
            _ => ReadActionView::Idle,
        }
    }
}

/// Applies one poll of the transport to `socket`. `polled` is what the
/// attached client received; without a client it is not looked at.
pub fn ws_read_rust(socket: &mut WsChannnel, polled: Result<Frame, RecvError>) -> (action: ReadAction)
    ensures
        final(socket)@.url == old(socket)@.url,
        final(socket)@.client == read_client(old(socket)@.client, polled_view(polled)),
        action@ == read_action(old(socket)@.client, polled_view(polled)),
{
    let message: Result<Frame, RecvError> = match socket.client {
        WsClient::Closed => {
            return ReadAction::Idle;
        },
        WsClient::Disconnected => {
            return ReadAction::Idle;
        },
        WsClient::Insecure => polled,
        WsClient::Secure => polled,
    };
    match message {
        Ok(message) => match message {
            Frame::Text(_) => ReadAction::Idle,
            Frame::Binary(data) => ReadAction::Deliver(data),
            Frame::Close(_) => {
                socket.client = WsClient::Disconnected;
                ReadAction::Hangup
            },
            Frame::Ping(ping) => {
                match ws_write_raw(socket, Frame::Pong(ping)) {
                    Some(pong) => ReadAction::Reply(pong),
                    None => ReadAction::Idle,
                }
            },
            Frame::Pong(_) => ReadAction::Idle,
        },
        Err(error) => match error {
            RecvError::NoDataAvailable => {
                socket.client = WsClient::Disconnected;
                ReadAction::Hangup
            },
            _ => ReadAction::Idle,
        },
    }
}

/// The client after a close: a live one is torn down, any other stays.
pub open spec fn closed(client: WsClient) -> WsClient {
    if client.live() {
        WsClient::Closed
    } else {
        client
    }
}

/// Closes `socket`. The result says whether the caller has to shut the
/// transport down; the handle is closed whether or not that shutdown succeeds.
pub fn ws_close_rust(socket: &mut WsChannnel) -> (shutdown: bool)
    ensures
        final(socket)@.url == old(socket)@.url,
        final(socket)@.client == closed(old(socket)@.client),
        shutdown == old(socket)@.client.live(),
{
    match socket.client {
        WsClient::Closed => false,
        WsClient::Insecure => {
            socket.client = WsClient::Closed;
            true
        },
        WsClient::Secure => {
            socket.client = WsClient::Closed;
            true
        },
        WsClient::Disconnected => false,
    }
}

/// The raw code of the state of `socket`.
pub fn ws_state_rust(socket: &mut WsChannnel) -> (code: i32)
    ensures
        *final(socket) == *old(socket),
        code as int == old(socket)@.client.state().code(),
{
    match socket.client {
        WsClient::Closed => 2,
        WsClient::Insecure => 1,
        WsClient::Secure => 1,
        WsClient::Disconnected => 0,
    }
}

} // verus!
