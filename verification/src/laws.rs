//! Laws of the channel, over the models that the steps are specified with.

use vstd::prelude::*;

use crate::frame::{FrameView, ReadActionView, RecvError};
use crate::pc::{
    attached,
    closed,
    on_wire,
    opened,
    read_action,
    read_client,
    revive_attempt,
    revive_reports,
    revived,
    ConnectionView,
    WsClient,
};
use crate::state::{decode, QuadWsState};
use crate::url::{authority_weight, is_end, run_weight, url_parses, url_usable, URL_WEIGHT_LIMIT};

verus! {

/// Every raw code reads as one of the three states: a code in `0..=2` as the
/// state it is the code of, any other as `WsClosed`.
pub proof fn law_decode_is_total(code: int)
    ensures
        0 <= decode(code).code() <= 2,
        0 <= code <= 2 ==> decode(code).code() == code,
        !(0 <= code <= 2) ==> decode(code) == QuadWsState::WsClosed,
{
}

/// Whatever client a handle has attached, the code it reports lies in
/// `0..=2` and reads back as the state of that client; a client is attached
/// exactly when that state is `WsConnected`.
pub proof fn law_reported_state_is_valid(client: WsClient)
    ensures
        0 <= client.state().code() <= 2,
        decode(client.state().code()) == client.state(),
        client.live() <==> client.state() == QuadWsState::WsConnected,
{
}

/// Closing twice leaves the handle as closing once does, and the second close
/// asks for no shutdown.
pub proof fn law_close_is_idempotent(client: WsClient)
    ensures
        closed(closed(client)) == closed(client),
        !closed(client).live(),
{
}

/// Reviving a connected handle changes nothing, attempts no handshake and
/// reports success.
pub proof fn law_revive_keeps_connection(connection: ConnectionView, usable: bool, established: bool)
    requires
        connection.client.live(),
    ensures
        revived(connection, usable, established) == connection,
        revive_attempt(connection, usable) is None,
        revive_reports(connection, usable),
{
}

/// Writing to a handle that is not connected puts nothing on the wire.
pub proof fn law_write_needs_connection(client: WsClient, data: FrameView)
    ensures
        !client.live() ==> on_wire(client, data) is None,
        client.live() ==> on_wire(client, data) == Some(data),
{
}

/// A ping that a connected handle reads is answered with one pong of the same
/// payload; the read delivers nothing and the handle stays connected.
pub proof fn law_ping_is_answered(client: WsClient, payload: Seq<u8>)
    requires
        client.live(),
    ensures
        read_action(client, Ok(FrameView::Ping(payload))) == ReadActionView::Reply(
            FrameView::Pong(payload),
        ),
        read_client(client, Ok(FrameView::Ping(payload))) == client,
{
}

/// A handle that was closed stays closed under every read, and the read asks
/// for nothing.
pub proof fn law_closed_stays_closed(polled: Result<FrameView, RecvError>)
    ensures
        read_client(WsClient::Closed, polled) == WsClient::Closed,
        read_client(WsClient::Closed, polled).state() == QuadWsState::WsClosed,
        read_action(WsClient::Closed, polled) == ReadActionView::Idle,
{
}

/// A close frame that a connected handle reads disconnects it.
pub proof fn law_close_frame_disconnects(client: WsClient, data: Option<crate::frame::CloseDataView>)
    requires
        client.live(),
    ensures
        read_client(client, Ok(FrameView::Close(data))) == WsClient::Disconnected,
        read_client(client, Ok(FrameView::Close(data))).state() == QuadWsState::WsDisconnected,
        read_action(client, Ok(FrameView::Close(data))) == ReadActionView::Hangup,
{
}

/// For a text whose authority is light enough the parser alone decides:
/// there is a handle exactly when the text parses, and then one handshake is
/// attempted.
pub proof fn law_light_authority_follows_parser(url: Seq<char>, established: bool)
    requires
        authority_weight(url) <= URL_WEIGHT_LIMIT,
    ensures
        url_usable(url) == url_parses(url),
        opened(url, url_usable(url), established) is Some <==> url_parses(url),
        revive_attempt(ConnectionView { client: WsClient::Disconnected, url }, url_usable(url)) is Some
            <==> url_parses(url),
{
}

/// A text whose authority is too heavy is never usable: no channel is opened
/// for it, and no revive of a handle that holds it attempts a handshake.
pub proof fn law_heavy_authority_is_unusable(url: Seq<char>, client: WsClient, established: bool)
    requires
        authority_weight(url) > URL_WEIGHT_LIMIT,
    ensures
        !url_usable(url),
        opened(url, url_usable(url), established) is None,
        revive_attempt(ConnectionView { client, url }, url_usable(url)) is None,
{
}

/// What follows the character that ends an authority weighs nothing: path,
/// query and fragment may be of any length.
pub proof fn law_rest_weighs_nothing(authority: Seq<char>, end: char, rest: Seq<char>)
    requires
        is_end(end),
    ensures
        run_weight(authority + seq![end] + rest) == run_weight(authority + seq![end]),
    decreases authority.len(),
{
    let long = authority + seq![end] + rest;
    let short = authority + seq![end];
    if authority.len() == 0 {
        assert(long[0] == end);
        assert(short[0] == end);
    } else {
        assert(long[0] == authority[0]);
        assert(short[0] == authority[0]);
        assert(long.drop_first() =~= authority.drop_first() + seq![end] + rest);
        assert(short.drop_first() =~= authority.drop_first() + seq![end]);
        law_rest_weighs_nothing(authority.drop_first(), end, rest);
    }
}

/// The client that is attached after the polls of `polls` were read in turn.
pub open spec fn read_each(client: WsClient, polls: Seq<Result<FrameView, RecvError>>) -> WsClient
    decreases polls.len(),
{
    if polls.len() == 0 {
        client
    } else {
        read_client(read_each(client, polls.drop_last()), polls.last())
    }
}

/// Without a client, no read delivers anything, whatever is polled and
/// however often: each read is idle and leaves the handle as it was, a closed
/// one closed and a disconnected one disconnected.
pub proof fn law_reads_stay_silent(client: WsClient, polls: Seq<Result<FrameView, RecvError>>)
    requires
        !client.live(),
    ensures
        read_each(client, polls) == client,
        forall|i: int|
            0 <= i < polls.len() ==> #[trigger] read_action(
                read_each(client, polls.take(i)),
                polls[i],
            ) == ReadActionView::Idle,
    decreases polls.len(),
{
    if polls.len() > 0 {
        let front = polls.drop_last();
        law_reads_stay_silent(client, front);
        assert forall|i: int| 0 <= i < polls.len() implies #[trigger] read_action(
            read_each(client, polls.take(i)),
            polls[i],
        ) == ReadActionView::Idle by {
            if i < front.len() {
                assert(polls.take(i) =~= front.take(i));
                assert(polls[i] == front[i]);
            } else {
                assert(polls.take(i) =~= front);
            }
        }
    }
}

/// A disconnected handle whose URL is usable is connected again by a revive
/// whose handshake is established, over the transport of its scheme.
pub proof fn law_revive_reconnects(connection: ConnectionView)
    requires
        !connection.client.live(),
    ensures
        revived(connection, true, true).client.live(),
        revived(connection, true, true).client == attached(connection.url, true),
        revived(connection, true, false).client == WsClient::Disconnected,
        revived(connection, false, true) == connection,
{
}

} // verus!
