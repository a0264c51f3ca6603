//! Frames and poll results, as plain values.

use vstd::prelude::*;

verus! {

/// The status and reason that a close frame may carry.
#[derive(Clone, Debug, PartialEq, Eq)]
pub struct CloseData {
    pub status_code: u16,
    pub reason: String,
}

/// The model of a `CloseData`.
pub struct CloseDataView {
    pub status_code: u16,
    pub reason: Seq<char>,
}

impl View for CloseData {
    type V = CloseDataView;

    open spec fn view(&self) -> CloseDataView {
        CloseDataView { status_code: self.status_code, reason: self.reason@ }
    }
}

/// One WebSocket message, complete with its payload.
#[derive(Clone, Debug, PartialEq, Eq)]
pub enum Frame {
    /// UTF-8 text.
    Text(String),
    /// Opaque bytes.
    Binary(Vec<u8>),
    /// The peer ends the connection.
    Close(Option<CloseData>),
    /// A ping, to be answered with a pong of the same payload.
    Ping(Vec<u8>),
    /// The answer to a ping.
    Pong(Vec<u8>),
}

/// The model of a `Frame`.
pub enum FrameView {
    Text(Seq<char>),
    Binary(Seq<u8>),
    Close(Option<CloseDataView>),
    Ping(Seq<u8>),
    Pong(Seq<u8>),
}

impl View for Frame {
    type V = FrameView;

    open spec fn view(&self) -> FrameView {
        match *self {
            Frame::Text(text) => FrameView::Text(text@),
            Frame::Binary(data) => FrameView::Binary(data@),
            Frame::Close(None) => FrameView::Close(None),
            Frame::Close(Some(data)) => FrameView::Close(Some(data@)),
            Frame::Ping(data) => FrameView::Ping(data@),
            Frame::Pong(data) => FrameView::Pong(data@),
        }
    }
}

/// Why a poll of the transport gave no frame.
#[derive(Clone, Copy, Debug, PartialEq, Eq, Structural)]
pub enum RecvError {
    /// The peer broke the protocol.
    Protocol,
    /// A malformed data frame arrived.
    DataFrame,
    /// The transport has no peer any more.
    NoDataAvailable,
    /// Nothing has arrived yet; the transport would have had to wait.
    WouldBlock,
    /// Any other failure of the underlying stream.
    Io,
    /// A text frame was not valid UTF-8.
    Utf8,
    /// Anything else.
    Other,
}

/// The model of what one poll of the transport gave.
pub open spec fn polled_view(polled: Result<Frame, RecvError>) -> Result<FrameView, RecvError> {
    match polled {
        Ok(frame) => Ok(frame@),
        Err(error) => Err(error),
    }
}

/// The model of a frame that may be absent.
pub open spec fn frame_option_view(frame: Option<Frame>) -> Option<FrameView> {
    match frame {
        Some(frame) => Some(frame@),
        None => None,
    }
}

/// What the caller has to do after one read step.
#[derive(Clone, Debug, PartialEq, Eq)]
pub enum ReadAction {
    /// Hand this payload to the reader.
    Deliver(Vec<u8>),
    /// Send this frame back to the peer; whether that send succeeds is of no
    /// consequence.
    Reply(Frame),
    /// Let go of the transport: the channel is no longer connected.
    Hangup,
    /// Nothing.
    Idle,
}

/// The model of a `ReadAction`.
pub enum ReadActionView {
    Deliver(Seq<u8>),
    Reply(FrameView),
    Hangup,
    Idle,
}

impl View for ReadAction {
    type V = ReadActionView;

    open spec fn view(&self) -> ReadActionView {
        match *self {
            ReadAction::Deliver(data) => ReadActionView::Deliver(data@),
            ReadAction::Reply(frame) => ReadActionView::Reply(frame@),
            ReadAction::Hangup => ReadActionView::Hangup,
            ReadAction::Idle => ReadActionView::Idle,
        }
    }
}

impl ReadAction {
    /// The payload that the read hands to its caller, if any.
    pub fn payload(self) -> (data: Option<Vec<u8>>)
        ensures
            match self@ {
                ReadActionView::Deliver(bytes) => data matches Some(v) && v@ == bytes,
                _ => data is None,
            },
    {
        match self {
            ReadAction::Deliver(data) => Some(data),
            _ => None,
        }
    }
}

} // verus!
