//! The sandboxed backend: a channel that the host drives and addresses by an
//! integer id.
//!
//! The host owns the connection and its state. What is decided here is how its
//! answers are read: which id stands for a channel, and how large a buffer the
//! next message needs. Writing, closing, reviving and the state query are the
//! host's own calls and have no step here; in particular it is the host, not
//! this backend, that decides whether a revive does anything. A state code
//! that the host reports is read with `QuadWsState::from_code`.

use vstd::prelude::*;

verus! {

/// A channel handle of the sandboxed backend: the id that the host gave.
pub type WsChannnel = i32;

/// The handle that the host's answer to an open request stands for: none for
/// a negative id.
pub open spec fn host_handle(socket_id: i32) -> Option<i32> {
    if socket_id < 0 {
        None
    } else {
        Some(socket_id)
    }
}

/// The buffer that is handed to the host when it reports `available` bytes:
/// that many zero bytes, or none when the report is negative.
pub open spec fn host_buffer(available: int) -> Option<Seq<u8>> {
    if available < 0 {
        None
    } else {
        Some(Seq::new(available as nat, |i: int| 0u8))
    }
}

/// The model of a buffer that may be absent.
pub open spec fn buffer_view(buffer: Option<Vec<u8>>) -> Option<Seq<u8>> {
    match buffer {
        Some(bytes) => Some(bytes@),
        None => None,
    }
}

/// Reads the host's answer to an open request: a negative id means that the
/// host refused, and gives no handle.
pub fn ws_open_rust(socket_id: i32) -> (handle: Option<WsChannnel>)
    ensures
        handle == host_handle(socket_id),
{
    if socket_id < 0 {
        None
    } else {
        Some(socket_id)
    }
}

/// Prepares the buffer for the next message: `available` zero bytes for the
/// host to fill, or nothing when the host reports a negative length.
pub fn ws_read_rust(available: i32) -> (buffer: Option<Vec<u8>>)
    ensures
        buffer_view(buffer) == host_buffer(available as int),
{
    if available < 0 {
        return None;
    }
    let len = available as usize;
    let mut bytes: Vec<u8> = Vec::new();
    while bytes.len() < len
        invariant
            bytes@.len() <= len,
            bytes@ == Seq::new(bytes@.len(), |i: int| 0u8),
        decreases len - bytes@.len(),
    {
        bytes.push(0u8);
    }
    Some(bytes)
}

} // verus!
