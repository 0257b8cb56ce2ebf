//! Routing of received packets by their message number.

use crate::buf;
use crate::client::auth::{
    received_auth_packet, received_service_accept, recv_auth_packet, recv_service_accept,
    AuthEvent,
};
use crate::client::client_state::{ClientState, ClientStateView};
use crate::client::conn::{
    get_rest, parse_channel_data, parse_open_confirmation, parse_open_failure,
    parse_window_adjust, received_channel_close, received_channel_data, received_channel_eof,
    received_channel_reply, received_open_confirmation, received_open_failure,
    received_window_adjust, recv_channel_close, recv_channel_data, recv_channel_eof,
    recv_channel_open_confirmation, recv_channel_open_failure, recv_channel_reply,
    recv_channel_window_adjust, ChannelData, ChannelOpened, OpenFailed, RequestReply,
};
use crate::client::negotiate::{
    received_kex_init, received_new_keys, received_unimplemented, recv_kex_packet,
    recv_negotiate_packet, recv_unimplemented, UNEXPECTED_KEX_MESSAGE,
};
use crate::codec::decode::{PacketDecode, TRUNCATED};
use crate::codec::wire;
use crate::codes::msg;
use crate::error::{DisconnectError, DisconnectErrorView, Error, ErrorView};
use crate::kex::KexAlgo;
use vstd::prelude::*;

verus! {

/// What a received packet means for the driver.
pub enum Received {
    /// Nothing: the packet was dealt with.
    Nothing,
    /// The message belongs to the key exchange that runs: the driver hands the
    /// number and what follows it to the exchange.
    Kex(KexAlgo, u8, PacketDecode),
    /// A message of the authentication protocol.
    Auth(AuthEvent),
    /// The server sent a message for debugging.
    Debug(Vec<u8>),
    /// The server made a request that concerns no channel.
    GlobalRequest { name: Vec<u8>, want_reply: bool, payload: Vec<u8> },
    /// A channel was opened.
    ChannelOpened(ChannelOpened),
    /// The server refused to open a channel.
    OpenFailed(OpenFailed),
    /// Data came in on a channel.
    ChannelData(ChannelData),
    /// The server opened its window on the channel with this number.
    WindowAdjusted(u32),
    /// The server sends no more data on the channel with this number.
    ChannelEof(u32),
    /// The channel with this number is closed and forgotten.
    ChannelClosed(u32),
    /// A request on a channel was answered.
    RequestReply(RequestReply),
}

/// What `SSH_MSG_DISCONNECT` holds after the message number: the reason as a
/// number and in words, and the language of the words.
pub open spec fn parse_disconnect(body: Seq<u8>) -> Option<(u32, Seq<u8>)> {
    match wire::parse_u32(body) {
        None => None,
        Some((reason_code, rest)) => match wire::parse_string(rest) {
            None => None,
            Some((description, rest)) => match wire::parse_string(rest) {
                None => None,
                Some(_) => Some((reason_code, description)),
            },
        },
    }
}

/// What `SSH_MSG_DEBUG` holds after the message number: whether the message
/// is to be shown, the message, and its language.
pub open spec fn parse_debug(body: Seq<u8>) -> Option<Seq<u8>> {
    match wire::parse_bool(body) {
        None => None,
        Some((_, rest)) => match wire::parse_string(rest) {
            None => None,
            Some((message, rest)) => match wire::parse_string(rest) {
                None => None,
                Some(_) => Some(message),
            },
        },
    }
}

/// What `SSH_MSG_GLOBAL_REQUEST` holds after the message number: the name of
/// the request, whether it wants a reply, and what the request adds.
pub open spec fn parse_global_request(body: Seq<u8>) -> Option<(Seq<u8>, bool, Seq<u8>)> {
    match wire::parse_string(body) {
        None => None,
        Some((name, rest)) => match wire::parse_bool(rest) {
            None => None,
            Some((want_reply, rest)) => Some((name, want_reply, rest)),
        },
    }
}

/// A result with its error by its view.
pub open spec fn viewed<T>(r: Result<T, Error>) -> Result<T, ErrorView> {
    match r {
        Ok(value) => Ok(value),
        Err(e) => Err(e@),
    }
}

/// The state with other channels, where there is no error.
pub open spec fn with_channels(
    pre: ClientStateView,
    r: Result<crate::client::conn::ConnView, Error>,
) -> Result<ClientStateView, ErrorView> {
    match r {
        Ok(conn) => Ok(ClientStateView { conn, ..pre }),
        Err(e) => Err(e@),
    }
}

/// What receiving a message of the connection protocol, one with a number
/// from 80 to 127, makes of a state.
pub open spec fn routed_conn(pre: ClientStateView, msg_id: u8, body: Seq<u8>) -> Result<
    ClientStateView,
    ErrorView,
> {
    if msg_id == msg::GLOBAL_REQUEST {
        match parse_global_request(body) {
            None => Err(ErrorView::Decode(TRUNCATED)),
            Some(_) => Ok(pre),
        }
    } else if msg_id == msg::CHANNEL_OPEN_CONFIRMATION {
        match received_open_confirmation(pre.conn, body) {
            Ok((conn, _)) => Ok(ClientStateView { conn, ..pre }),
            Err(e) => Err(e@),
        }
    } else if msg_id == msg::CHANNEL_OPEN_FAILURE {
        match received_open_failure(pre.conn, body) {
            Ok((conn, _)) => Ok(ClientStateView { conn, ..pre }),
            Err(e) => Err(e@),
        }
    } else if msg_id == msg::CHANNEL_WINDOW_ADJUST {
        with_channels(pre, received_window_adjust(pre.conn, body))
    } else if msg_id == msg::CHANNEL_DATA {
        viewed(received_channel_data(pre, body, false))
    } else if msg_id == msg::CHANNEL_EXTENDED_DATA {
        viewed(received_channel_data(pre, body, true))
    } else if msg_id == msg::CHANNEL_EOF {
        with_channels(pre, received_channel_eof(pre.conn, body))
    } else if msg_id == msg::CHANNEL_CLOSE {
        viewed(received_channel_close(pre, body))
    } else if msg_id == msg::CHANNEL_SUCCESS || msg_id == msg::CHANNEL_FAILURE {
        match received_channel_reply(pre.conn, body, msg_id == msg::CHANNEL_SUCCESS) {
            Ok((_, conn)) => Ok(ClientStateView { conn, ..pre }),
            Err(e) => Err(e@),
        }
    } else {
        Err(ErrorView::PacketNotImplemented(msg_id))
    }
}

/// What receiving the packet with the payload `payload` makes of a state.
/// The first octet of the payload, the message number, decides who takes the
/// message: from 1 to 19 the transport itself, from 20 to 29 the negotiation,
/// from 30 to 49 the key exchange that runs, from 50 to 79 authentication,
/// from 80 to 127 the channels.
pub open spec fn routed(pre: ClientStateView, payload: Seq<u8>) -> Result<
    ClientStateView,
    ErrorView,
> {
    if payload.len() == 0 {
        Err(ErrorView::Decode(TRUNCATED))
    } else {
        let msg_id = payload[0];
        let body = payload.skip(1);
        if msg_id == msg::DISCONNECT {
            match parse_disconnect(body) {
                None => Err(ErrorView::Decode(TRUNCATED)),
                Some((reason_code, description)) => Err(
                    ErrorView::Disconnect(DisconnectErrorView { reason_code, description }),
                ),
            }
        } else if msg_id == msg::IGNORE || msg_id == msg::EXT_INFO {
            Ok(pre)
        } else if msg_id == msg::UNIMPLEMENTED {
            match wire::parse_u32(body) {
                None => Err(ErrorView::Decode(TRUNCATED)),
                Some((packet_seq, _)) => match received_unimplemented(pre, packet_seq) {
                    Ok((_, post)) => Ok(post),
                    Err(e) => Err(e),
                },
            }
        } else if msg_id == msg::DEBUG {
            match parse_debug(body) {
                None => Err(ErrorView::Decode(TRUNCATED)),
                Some(_) => Ok(pre),
            }
        } else if msg_id == msg::SERVICE_ACCEPT {
            viewed(received_service_accept(pre, body))
        } else if msg_id == msg::KEXINIT {
            received_kex_init(pre, payload, body)
        } else if msg_id == msg::NEWKEYS {
            received_new_keys(pre)
        } else if 30 <= msg_id <= 49 {
            if pre.negotiate.kex is Some {
                Ok(pre)
            } else {
                Err(ErrorView::Protocol(UNEXPECTED_KEX_MESSAGE))
            }
        } else if 50 <= msg_id <= 79 {
            match received_auth_packet(pre, msg_id, body) {
                Ok((_, post)) => Ok(post),
                Err(e) => Err(e@),
            }
        } else if 80 <= msg_id <= 127 {
            routed_conn(pre, msg_id, body)
        } else {
            Err(ErrorView::PacketNotImplemented(msg_id))
        }
    }
}

/// Whether `received` is what the packet with the payload `payload`, received
/// in the state `pre`, means for the driver.
pub open spec fn delivered(pre: ClientStateView, payload: Seq<u8>, received: Received) -> bool {
    let msg_id = payload[0];
    let body = payload.skip(1);
    match received {
        Received::Nothing => {
            ||| msg_id == msg::IGNORE
            ||| msg_id == msg::EXT_INFO
            ||| msg_id == msg::UNIMPLEMENTED
            ||| msg_id == msg::SERVICE_ACCEPT
            ||| msg_id == msg::KEXINIT
            ||| msg_id == msg::NEWKEYS
        },
        Received::Kex(algo, number, rest) => {
            &&& 30 <= msg_id <= 49
            &&& pre.negotiate.kex == Some(algo)
            &&& number == msg_id
            &&& rest.original() == payload
            &&& rest.remaining() == body
        },
        Received::Auth(event) => {
            &&& 50 <= msg_id <= 79
            &&& received_auth_packet(pre, msg_id, body) matches Ok((told, _))
            &&& event@ == told
        },
        Received::Debug(message) => msg_id == msg::DEBUG && parse_debug(body) == Some(message@),
        Received::GlobalRequest { name, want_reply, payload: rest } => {
            &&& msg_id == msg::GLOBAL_REQUEST
            &&& parse_global_request(body) == Some((name@, want_reply, rest@))
        },
        Received::ChannelOpened(opened) => {
            &&& msg_id == msg::CHANNEL_OPEN_CONFIRMATION
            &&& received_open_confirmation(pre.conn, body) matches Ok((_, confirmed_tx))
            &&& parse_open_confirmation(body) matches Some((our_id, _, _, _, rest))
            &&& opened.confirmed_tx == confirmed_tx
            &&& opened.our_id == our_id
            &&& opened.confirm_payload@ == rest
        },
        Received::OpenFailed(failed) => {
            &&& msg_id == msg::CHANNEL_OPEN_FAILURE
            &&& received_open_failure(pre.conn, body) matches Ok((_, confirmed_tx))
            &&& parse_open_failure(body) matches Some((_, reason_code, description))
            &&& failed.confirmed_tx == confirmed_tx
            &&& failed.reason_code == reason_code
            &&& failed.description@ == description
        },
        Received::ChannelData(data) => {
            &&& msg_id == msg::CHANNEL_DATA || msg_id == msg::CHANNEL_EXTENDED_DATA
            &&& parse_channel_data(body, msg_id == msg::CHANNEL_EXTENDED_DATA) matches Some(
                (our_id, code, octets),
            )
            &&& data.our_id == our_id
            &&& data.data_type_code == code
            &&& data.data@ == octets
        },
        Received::WindowAdjusted(our_id) => {
            &&& msg_id == msg::CHANNEL_WINDOW_ADJUST
            &&& parse_window_adjust(body) matches Some((id, _))
            &&& our_id == id
        },
        Received::ChannelEof(our_id) => {
            &&& msg_id == msg::CHANNEL_EOF
            &&& wire::parse_u32(body) matches Some((id, _))
            &&& our_id == id
        },
        Received::ChannelClosed(our_id) => {
            &&& msg_id == msg::CHANNEL_CLOSE
            &&& wire::parse_u32(body) matches Some((id, _))
            &&& our_id == id
        },
        Received::RequestReply(reply) => {
            &&& msg_id == msg::CHANNEL_SUCCESS || msg_id == msg::CHANNEL_FAILURE
            &&& received_channel_reply(pre.conn, body, msg_id == msg::CHANNEL_SUCCESS) matches Ok(
                (told, _),
            )
            &&& reply == told
        },
    }
}

/// Reads what `SSH_MSG_DISCONNECT` holds.
fn get_disconnect(payload: &mut PacketDecode) -> (r: Result<DisconnectError, Error>)
    ensures
        match parse_disconnect(old(payload).remaining()) {
            Some((reason_code, description)) => r matches Ok(e) && e@ == (DisconnectErrorView {
                reason_code,
                description,
            }),
            None => r matches Err(e) && e == Error::Decode(TRUNCATED),
        },
{
    let reason_code: u32 = payload.get_u32()?;
    let description: Vec<u8> = payload.get_bytes()?;
    let _language: Vec<u8> = payload.get_bytes()?;
    Ok(DisconnectError { reason_code, description })
}

/// Reads what `SSH_MSG_DEBUG` holds.
fn get_debug(payload: &mut PacketDecode) -> (r: Result<Vec<u8>, Error>)
    ensures
        match parse_debug(old(payload).remaining()) {
            Some(message) => r matches Ok(read) && read@ == message,
            None => r matches Err(e) && e == Error::Decode(TRUNCATED),
        },
{
    let _always_display: bool = payload.get_bool()?;
    let message: Vec<u8> = payload.get_bytes()?;
    let _language: Vec<u8> = payload.get_bytes()?;
    Ok(message)
}

/// Takes a message of the connection protocol, whose message number has been
/// read from `payload` already.
pub fn recv_conn_packet(st: &mut ClientState, msg_id: u8, payload: PacketDecode) -> (r: Result<
    Received,
    Error,
>)
    requires
        old(st)@.wf(),
        payload.original().len() > 0,
        payload.original()[0] == msg_id,
        payload.remaining() == payload.original().skip(1),
    ensures
        match routed_conn(old(st)@, msg_id, payload.remaining()) {
            Ok(post) => r matches Ok(received) && final(st)@ == post && delivered(
                old(st)@,
                payload.original(),
                received,
            ),
            Err(e) => r matches Err(err) && err@ == e && final(st)@ == old(st)@,
        },
        final(st)@.wf(),
        final(st)@.follows(old(st)@),
{
    if msg_id == msg::GLOBAL_REQUEST {
        let mut payload = payload;
        let name: Vec<u8> = payload.get_bytes()?;
        let want_reply: bool = payload.get_bool()?;
        let rest: Vec<u8> = get_rest(&mut payload);
        Ok(Received::GlobalRequest { name, want_reply, payload: rest })
    } else if msg_id == msg::CHANNEL_OPEN_CONFIRMATION {
        Ok(Received::ChannelOpened(recv_channel_open_confirmation(st, payload)?))
    } else if msg_id == msg::CHANNEL_OPEN_FAILURE {
        Ok(Received::OpenFailed(recv_channel_open_failure(st, payload)?))
    } else if msg_id == msg::CHANNEL_WINDOW_ADJUST {
        Ok(Received::WindowAdjusted(recv_channel_window_adjust(st, payload)?))
    } else if msg_id == msg::CHANNEL_DATA {
        Ok(Received::ChannelData(recv_channel_data(st, payload, false)?))
    } else if msg_id == msg::CHANNEL_EXTENDED_DATA {
        Ok(Received::ChannelData(recv_channel_data(st, payload, true)?))
    } else if msg_id == msg::CHANNEL_EOF {
        Ok(Received::ChannelEof(recv_channel_eof(st, payload)?))
    } else if msg_id == msg::CHANNEL_CLOSE {
        Ok(Received::ChannelClosed(recv_channel_close(st, payload)?))
    } else if msg_id == msg::CHANNEL_SUCCESS || msg_id == msg::CHANNEL_FAILURE {
        Ok(Received::RequestReply(recv_channel_reply(st, payload, msg_id == msg::CHANNEL_SUCCESS)?))
    } else {
        Err(Error::PacketNotImplemented(msg_id))
    }
}

/// Takes a received packet and hands it to the part of the client that its
/// message number names. On failure the state stays as it is.
pub fn recv_packet(st: &mut ClientState, payload: bytes::Bytes) -> (r: Result<Received, Error>)
    requires
        old(st)@.wf(),
    ensures
        match routed(old(st)@, buf::contents(payload)) {
            Ok(post) => r matches Ok(received) && final(st)@ == post && delivered(
                old(st)@,
                buf::contents(payload),
                received,
            ),
            Err(e) => r matches Err(err) && err@ == e && final(st)@ == old(st)@,
        },
        final(st)@.wf(),
        final(st)@.follows(old(st)@),
{
    let mut payload = PacketDecode::new(payload);
    let msg_id: u8 = payload.get_u8()?;
    if msg_id == msg::DISCONNECT {
        let e: DisconnectError = get_disconnect(&mut payload)?;
        Err(Error::Disconnect(e))
    } else if msg_id == msg::IGNORE || msg_id == msg::EXT_INFO {
        Ok(Received::Nothing)
    } else if msg_id == msg::UNIMPLEMENTED {
        let packet_seq: u32 = payload.get_u32()?;
        recv_unimplemented(st, packet_seq)?;
        Ok(Received::Nothing)
    } else if msg_id == msg::DEBUG {
        let message: Vec<u8> = get_debug(&mut payload)?;
        Ok(Received::Debug(message))
    } else if msg_id == msg::SERVICE_ACCEPT {
        recv_service_accept(st, payload)?;
        Ok(Received::Nothing)
    } else if msg_id == msg::KEXINIT || msg_id == msg::NEWKEYS {
        recv_negotiate_packet(st, msg_id, &mut payload)?;
        Ok(Received::Nothing)
    } else if 30 <= msg_id && msg_id <= 49 {
        let algo: KexAlgo = recv_kex_packet(st, msg_id)?;
        Ok(Received::Kex(algo, msg_id, payload))
    } else if 50 <= msg_id && msg_id <= 79 {
        Ok(Received::Auth(recv_auth_packet(st, msg_id, payload)?))
    } else if 80 <= msg_id && msg_id <= 127 {
        recv_conn_packet(st, msg_id, payload)
    } else {
        Err(Error::PacketNotImplemented(msg_id))
    }
}

} // verus!
