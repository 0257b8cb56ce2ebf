//! The channels of a connection: opening them, routing their messages and
//! forgetting them once both sides have closed them (RFC 4254, section 5).

use crate::buf;
use crate::client::auth::is_authenticated;
use crate::client::channel::{ChannelState, ChannelView};
use crate::client::client_state::{wakeup_client, ClientState, ClientStateView};
use crate::client::negotiate::is_ready;
use crate::client::negotiate::State;
use crate::client::pump::Pump;
use crate::codec::decode::{PacketDecode, TRUNCATED};
use crate::codec::encode::PacketEncode;
use crate::codec::wire;
use crate::codec::CodecView;
use crate::codes::msg;
use crate::error::Error;
use vstd::prelude::*;

verus! {

/// The window that [`open_request`] offers to the peer.
pub const RECV_WINDOW_MAX: u32 = 100_000;

/// The largest packet of data that [`open_request`] lets the peer send.
pub const RECV_PACKET_LEN_MAX: u32 = 1_000_000;

/// The reason given when a message names a channel that is not open.
pub const UNKNOWN_CHANNEL: &'static str = "received a message for an unknown channel";

/// The reason given when a reply names a channel that we did not ask to open.
pub const UNKNOWN_OPEN: &'static str = "received a reply to a channel open that was not sent";

/// A request to open a channel.
pub struct OpenChannel {
    /// The type of the channel, such as `"session"`.
    pub channel_type: Vec<u8>,
    /// The window that we offer to the peer.
    pub recv_window_max: u32,
    /// The largest packet of data that the peer may send us.
    pub recv_packet_len_max: u32,
    /// What the type of the channel adds to the request.
    pub open_payload: bytes::Bytes,
    /// The number under which the one who asks is told the outcome.
    pub confirmed_tx: u64,
}

/// What an [`OpenChannel`] holds.
pub struct OpenChannelView {
    pub channel_type: Seq<u8>,
    pub recv_window_max: u32,
    pub recv_packet_len_max: u32,
    pub open_payload: Seq<u8>,
    pub confirmed_tx: u64,
}

impl View for OpenChannel {
    type V = OpenChannelView;

    open spec fn view(&self) -> OpenChannelView {
        OpenChannelView {
            channel_type: self.channel_type@,
            recv_window_max: self.recv_window_max,
            recv_packet_len_max: self.recv_packet_len_max,
            open_payload: buf::contents(self.open_payload),
            confirmed_tx: self.confirmed_tx,
        }
    }
}

/// A channel that we have asked the peer to open.
#[derive(Debug, Clone, Copy, PartialEq, Eq, Structural)]
pub struct Opening {
    /// The number by which the peer will name the channel to us.
    pub our_id: u32,
    /// The window that we offered.
    pub recv_window_max: u32,
    /// The largest packet of data that the peer may send us.
    pub recv_packet_len_max: u32,
    /// The number under which the one who asked is told the outcome.
    pub confirmed_tx: u64,
}

/// The channels of a connection.
pub struct ConnState {
    pub(crate) open_requests: Vec<OpenChannel>,
    pub(crate) opening: Vec<Opening>,
    pub(crate) channels: Vec<ChannelState>,
    pub(crate) next_our_id: u32,
}

/// What a [`ConnState`] holds.
pub struct ConnView {
    /// The requests to open a channel that wait until we are authenticated,
    /// oldest first.
    pub open_requests: Seq<OpenChannelView>,
    /// The channels that we have asked the peer to open.
    pub opening: Seq<Opening>,
    /// The open channels.
    pub channels: Seq<ChannelView>,
    /// The number that the next channel gets.
    pub next_our_id: u32,
}

impl View for ConnState {
    type V = ConnView;

    open(crate) spec fn view(&self) -> ConnView {
        ConnView {
            open_requests: self.open_requests@.map_values(|open: OpenChannel| open@),
            opening: self.opening@,
            channels: self.channels@.map_values(|channel: ChannelState| channel@),
            next_our_id: self.next_our_id,
        }
    }
}

/// The place of the channel that the peer names `our_id` among `channels`,
/// from `from` on.
pub open spec fn channel_at(channels: Seq<ChannelView>, our_id: u32, from: int) -> Option<int>
    decreases channels.len() - from,
{
    if from < 0 || from >= channels.len() {
        None
    } else if channels[from].our_id == our_id {
        Some(from)
    } else {
        channel_at(channels, our_id, from + 1)
    }
}

/// The place of the channel with the number `our_id` among `opening`, from
/// `from` on.
pub open spec fn opening_at(opening: Seq<Opening>, our_id: u32, from: int) -> Option<int>
    decreases opening.len() - from,
{
    if from < 0 || from >= opening.len() {
        None
    } else if opening[from].our_id == our_id {
        Some(from)
    } else {
        opening_at(opening, our_id, from + 1)
    }
}

impl ConnView {
    /// No channels and no requests.
    pub open spec fn fresh() -> ConnView {
        ConnView {
            open_requests: Seq::empty(),
            opening: Seq::empty(),
            channels: Seq::empty(),
            next_our_id: 0,
        }
    }

    /// Every channel is in order, every number was given out before, and no
    /// number names two channels, be they open or about to be.
    pub open spec fn wf(self) -> bool {
        &&& forall|i: int|
            0 <= i < self.open_requests.len() ==> (
            #[trigger] self.open_requests[i]).channel_type.len() <= u32::MAX
        &&& forall|i: int| 0 <= i < self.channels.len() ==> (#[trigger] self.channels[i]).wf()
        &&& forall|i: int|
            0 <= i < self.channels.len() ==> (#[trigger] self.channels[i]).our_id
                < self.next_our_id
        &&& forall|i: int|
            0 <= i < self.opening.len() ==> (#[trigger] self.opening[i]).our_id
                < self.next_our_id
        &&& forall|i: int, j: int|
            0 <= i < j < self.channels.len() ==> (#[trigger] self.channels[i]).our_id != (
            #[trigger] self.channels[j]).our_id
        &&& forall|i: int, j: int|
            0 <= i < j < self.opening.len() ==> (#[trigger] self.opening[i]).our_id != (
            #[trigger] self.opening[j]).our_id
        &&& forall|i: int, j: int|
            0 <= i < self.channels.len() && 0 <= j < self.opening.len() ==> (
            #[trigger] self.channels[i]).our_id != (#[trigger] self.opening[j]).our_id
    }

    /// The place of the open channel that the peer names `our_id`.
    pub open spec fn channel(self, our_id: u32) -> Option<int> {
        channel_at(self.channels, our_id, 0)
    }
}

/// Where `channel_at` finds a channel, the channel is, and none with that
/// number is before it; where it finds none, there is none.
pub proof fn lemma_channel_at(channels: Seq<ChannelView>, our_id: u32, from: int)
    requires
        0 <= from,
    ensures
        match channel_at(channels, our_id, from) {
            Some(i) => from <= i < channels.len() && channels[i].our_id == our_id,
            None => forall|i: int| from <= i < channels.len() ==> channels[i].our_id != our_id,
        },
    decreases channels.len() - from,
{
    if from < channels.len() && channels[from].our_id != our_id {
        lemma_channel_at(channels, our_id, from + 1);
    }
}

/// Where `opening_at` finds a channel, the channel is; where it finds none,
/// there is none.
pub proof fn lemma_opening_at(opening: Seq<Opening>, our_id: u32, from: int)
    requires
        0 <= from,
    ensures
        match opening_at(opening, our_id, from) {
            Some(i) => from <= i < opening.len() && opening[i].our_id == our_id,
            None => forall|i: int| from <= i < opening.len() ==> opening[i].our_id != our_id,
        },
    decreases opening.len() - from,
{
    if from < opening.len() && opening[from].our_id != our_id {
        lemma_opening_at(opening, our_id, from + 1);
    }
}

/// A connection without channels.
pub fn init_conn() -> (conn_st: ConnState)
    ensures
        conn_st@ == ConnView::fresh(),
        conn_st@.wf(),
{
    let conn_st = ConnState {
        open_requests: Vec::new(),
        opening: Vec::new(),
        channels: Vec::new(),
        next_our_id: 0,
    };
    assert(conn_st@.open_requests =~= Seq::empty());
    assert(conn_st@.channels =~= Seq::empty());
    conn_st
}

/// The request to open a channel of the given type with the limits that this
/// client offers by default.
pub fn open_request(channel_type: Vec<u8>, open_payload: bytes::Bytes, confirmed_tx: u64) -> (open:
    OpenChannel)
    ensures
        open@ == (OpenChannelView {
            channel_type: channel_type@,
            recv_window_max: RECV_WINDOW_MAX,
            recv_packet_len_max: RECV_PACKET_LEN_MAX,
            open_payload: buf::contents(open_payload),
            confirmed_tx,
        }),
{
    OpenChannel {
        channel_type,
        recv_window_max: RECV_WINDOW_MAX,
        recv_packet_len_max: RECV_PACKET_LEN_MAX,
        open_payload,
        confirmed_tx,
    }
}

/// Finds the open channel that the peer names `our_id`.
pub fn find_channel(channels: &Vec<ChannelState>, our_id: u32) -> (found: Option<usize>)
    ensures
        match found {
            Some(i) => channel_at(channels@.map_values(|c: ChannelState| c@), our_id, 0) == Some(
                i as int,
            ) && i < channels@.len(),
            None => channel_at(channels@.map_values(|c: ChannelState| c@), our_id, 0) is None,
        },
{
    let ghost views = channels@.map_values(|c: ChannelState| c@);
    let n: usize = channels.len();
    let mut i: usize = 0;
    while i < n
        invariant
            n == channels@.len(),
            i <= n,
            views == channels@.map_values(|c: ChannelState| c@),
            channel_at(views, our_id, 0) == channel_at(views, our_id, i as int),
        decreases n - i,
    {
        if channels[i].our_id == our_id {
            return Some(i);
        }
        i = i + 1;
    }
    None
}

/// Finds the channel with the number `our_id` among those that we have asked
/// the peer to open.
pub fn find_opening(opening: &Vec<Opening>, our_id: u32) -> (found: Option<usize>)
    ensures
        match found {
            Some(i) => opening_at(opening@, our_id, 0) == Some(i as int) && i < opening@.len(),
            None => opening_at(opening@, our_id, 0) is None,
        },
{
    let n: usize = opening.len();
    let mut i: usize = 0;
    while i < n
        invariant
            n == opening@.len(),
            i <= n,
            opening_at(opening@, our_id, 0) == opening_at(opening@, our_id, i as int),
        decreases n - i,
    {
        if opening[i].our_id == our_id {
            return Some(i);
        }
        i = i + 1;
    }
    None
}

/// The reason given when the type of a channel is too long for the wire.
pub const TYPE_TOO_LONG: &'static str = "the type of the channel is too long";

/// The reason given when all channel numbers have been given out.
pub const IDS_USED_UP: &'static str = "all channel numbers are used up";

/// The payload of `SSH_MSG_CHANNEL_OPEN` for the request `open` and the
/// number `our_id`.
pub open spec fn channel_open_payload(open: OpenChannelView, our_id: u32) -> Seq<u8> {
    seq![msg::CHANNEL_OPEN] + wire::string(open.channel_type) + wire::u32_be(our_id)
        + wire::u32_be(open.recv_window_max) + wire::u32_be(open.recv_packet_len_max)
        + open.open_payload
}

/// The payload of `SSH_MSG_CHANNEL_WINDOW_ADJUST`.
pub open spec fn window_adjust_payload(their_id: u32, n: u32) -> Seq<u8> {
    seq![msg::CHANNEL_WINDOW_ADJUST] + wire::u32_be(their_id) + wire::u32_be(n)
}

/// The payload of `SSH_MSG_CHANNEL_DATA`.
pub open spec fn channel_data_payload(their_id: u32, data: Seq<u8>) -> Seq<u8> {
    seq![msg::CHANNEL_DATA] + wire::u32_be(their_id) + wire::string(data)
}

/// The payload of a message that holds nothing but the number of a channel.
pub open spec fn channel_payload(msg_id: u8, their_id: u32) -> Seq<u8> {
    seq![msg_id] + wire::u32_be(their_id)
}

/// A state with other channels and another send pipe.
pub open spec fn with_conn(
    pre: ClientStateView,
    conn: ConnView,
    send_pipe: crate::codec::pipe::SendPipeView,
) -> ClientStateView {
    ClientStateView { conn, codec: CodecView { send_pipe, ..pre.codec }, ..pre }
}

/// Asks for a channel to be opened. The request waits until we are
/// authenticated and no key exchange is under way.
pub fn open_channel(st: &mut ClientState, open: OpenChannel) -> (r: Result<(), Error>)
    requires
        old(st)@.wf(),
    ensures
        if open@.channel_type.len() <= u32::MAX {
            r is Ok && final(st)@ == (ClientStateView {
                conn: ConnView {
                    open_requests: old(st)@.conn.open_requests.push(open@),
                    ..old(st)@.conn
                },
                wakeup: true,
                ..old(st)@
            })
        } else {
            r == Err::<(), Error>(Error::Limit(TYPE_TOO_LONG)) && final(st)@ == old(st)@
        },
        final(st)@.wf(),
        final(st)@.follows(old(st)@),
{
    if open.channel_type.len() as u64 > u32::MAX as u64 {
        return Err(Error::Limit(TYPE_TOO_LONG));
    }
    let ghost view = open@;
    st.conn_st.open_requests.push(open);
    assert(st.conn_st@.open_requests =~= old(st)@.conn.open_requests.push(view));
    wakeup_client(st);
    Ok(())
}

/// One step of the channels: the oldest request to open a channel is sent,
/// once we are authenticated and no key exchange is under way.
pub open spec fn pumped_conn(pre: ClientStateView) -> (Result<Pump, Error>, ClientStateView) {
    if pre.authenticated && pre.negotiate.state == State::Idle && pre.conn.open_requests.len()
        > 0 {
        if pre.conn.next_our_id == u32::MAX {
            (Err(Error::Limit(IDS_USED_UP)), pre)
        } else {
            let open = pre.conn.open_requests[0];
            let our_id = pre.conn.next_our_id;
            (
                Ok(Pump::Progress),
                with_conn(
                    pre,
                    ConnView {
                        open_requests: pre.conn.open_requests.skip(1),
                        opening: pre.conn.opening.push(
                            Opening {
                                our_id,
                                recv_window_max: open.recv_window_max,
                                recv_packet_len_max: open.recv_packet_len_max,
                                confirmed_tx: open.confirmed_tx,
                            },
                        ),
                        next_our_id: (our_id + 1) as u32,
                        ..pre.conn
                    },
                    pre.codec.send_pipe.fed(channel_open_payload(open, our_id)),
                ),
            )
        }
    } else {
        (Ok(Pump::Pending), pre)
    }
}

/// One step of the channels.
pub fn pump_conn(st: &mut ClientState) -> (r: Result<Pump, Error>)
    requires
        old(st)@.wf(),
    ensures
        (r, final(st)@) == pumped_conn(old(st)@),
        final(st)@.wf(),
        final(st)@.follows(old(st)@),
{
    if !is_authenticated(st) || !is_ready(st) || st.conn_st.open_requests.len() == 0 {
        return Ok(Pump::Pending);
    }
    if st.conn_st.next_our_id == u32::MAX {
        return Err(Error::Limit(IDS_USED_UP));
    }
    let open: OpenChannel = st.conn_st.open_requests.remove(0);
    assert(st.conn_st@.open_requests =~= old(st)@.conn.open_requests.skip(1));
    assert(open@ == old(st)@.conn.open_requests[0]);
    let our_id: u32 = st.conn_st.next_our_id;
    st.conn_st.next_our_id = our_id + 1;

    let mut payload = PacketEncode::new();
    payload.put_u8(msg::CHANNEL_OPEN);
    payload.put_bytes(open.channel_type.as_slice());
    payload.put_u32(our_id);
    payload.put_u32(open.recv_window_max);
    payload.put_u32(open.recv_packet_len_max);
    payload.put_raw(buf::as_slice(&open.open_payload));
    assert(payload@ =~= channel_open_payload(open@, our_id));
    st.codec.send_pipe.feed_packet(payload.as_bytes());

    st.conn_st.opening.push(
        Opening {
            our_id,
            recv_window_max: open.recv_window_max,
            recv_packet_len_max: open.recv_packet_len_max,
            confirmed_tx: open.confirmed_tx,
        },
    );
    Ok(Pump::Progress)
}

/// A channel was opened.
pub struct ChannelOpened {
    /// The number under which the one who asked is told.
    pub confirmed_tx: u64,
    /// The number of the channel.
    pub our_id: u32,
    /// What the type of the channel adds to the confirmation.
    pub confirm_payload: Vec<u8>,
}

/// What `SSH_MSG_CHANNEL_OPEN_CONFIRMATION` holds after the message number:
/// our number of the channel, the peer's number, the window that the peer
/// offers, the largest packet that it takes, and what the type of the channel
/// adds.
pub open spec fn parse_open_confirmation(body: Seq<u8>) -> Option<(u32, u32, u32, u32, Seq<u8>)> {
    match wire::parse_u32(body) {
        None => None,
        Some((our_id, rest)) => match wire::parse_u32(rest) {
            None => None,
            Some((their_id, rest)) => match wire::parse_u32(rest) {
                None => None,
                Some((window, rest)) => match wire::parse_u32(rest) {
                    None => None,
                    Some((packet_len_max, rest)) => Some(
                        (our_id, their_id, window, packet_len_max, rest),
                    ),
                },
            },
        },
    }
}

/// What receiving `SSH_MSG_CHANNEL_OPEN_CONFIRMATION` makes of the channels,
/// and for whom it is: the channel that we asked for becomes an open channel
/// with full windows.
pub open spec fn received_open_confirmation(pre: ConnView, body: Seq<u8>) -> Result<
    (ConnView, u64),
    Error,
> {
    match parse_open_confirmation(body) {
        None => Err(Error::Decode(TRUNCATED)),
        Some((our_id, their_id, window, packet_len_max, _)) => match opening_at(
            pre.opening,
            our_id,
            0,
        ) {
            None => Err(Error::Protocol(UNKNOWN_OPEN)),
            Some(i) => Ok(
                (
                    ConnView {
                        opening: pre.opening.remove(i),
                        channels: pre.channels.push(
                            ChannelView::opened(
                                our_id,
                                their_id,
                                pre.opening[i].recv_window_max,
                                pre.opening[i].recv_packet_len_max,
                                window,
                                packet_len_max,
                            ),
                        ),
                        ..pre
                    },
                    pre.opening[i].confirmed_tx,
                ),
            ),
        },
    }
}

/// Reads all that is left of `payload`.
pub fn get_rest(payload: &mut PacketDecode) -> (rest: Vec<u8>)
    ensures
        final(payload).original() == old(payload).original(),
        rest@ == old(payload).remaining(),
        final(payload).remaining().len() == 0,
{
    let ghost left = payload.remaining();
    let n: usize = payload.remaining_len();
    match payload.get_raw(n) {
        Ok(rest) => {
            assert(rest@ =~= left);
            rest
        },
        Err(_) => vstd::pervasive::unreached(),
    }
}

/// Reads four numbers from `payload`.
fn get_four(payload: &mut PacketDecode) -> (r: Result<(u32, u32, u32, u32), Error>)
    ensures
        final(payload).original() == old(payload).original(),
        match parse_open_confirmation(old(payload).remaining()) {
            Some((a, b, c, d, rest)) => r == Ok::<(u32, u32, u32, u32), Error>((a, b, c, d))
                && final(payload).remaining() == rest,
            None => r == Err::<(u32, u32, u32, u32), Error>(Error::Decode(TRUNCATED)),
        },
{
    let a: u32 = payload.get_u32()?;
    let b: u32 = payload.get_u32()?;
    let c: u32 = payload.get_u32()?;
    let d: u32 = payload.get_u32()?;
    Ok((a, b, c, d))
}

/// Takes `SSH_MSG_CHANNEL_OPEN_CONFIRMATION`, whose message number has been
/// read from `payload` already. On failure the state stays as it is.
pub fn recv_channel_open_confirmation(st: &mut ClientState, payload: PacketDecode) -> (r: Result<
    ChannelOpened,
    Error,
>)
    requires
        old(st)@.wf(),
    ensures
        match received_open_confirmation(old(st)@.conn, payload.remaining()) {
            Ok((conn, confirmed_tx)) => {
                &&& r matches Ok(opened)
                &&& parse_open_confirmation(payload.remaining()) matches Some(
                    (our_id, _, _, _, rest),
                )
                &&& opened.confirmed_tx == confirmed_tx
                &&& opened.our_id == our_id
                &&& opened.confirm_payload@ == rest
                &&& final(st)@ == (ClientStateView { conn, ..old(st)@ })
            },
            Err(e) => r matches Err(err) && err == e && final(st)@ == old(st)@,
        },
        final(st)@.wf(),
        final(st)@.follows(old(st)@),
{
    let mut payload = payload;
    let (our_id, their_id, window, packet_len_max) = get_four(&mut payload)?;
    let confirm_payload: Vec<u8> = get_rest(&mut payload);
    let i: usize = match find_opening(&st.conn_st.opening, our_id) {
        Some(i) => i,
        None => {
            return Err(Error::Protocol(UNKNOWN_OPEN));
        },
    };
    proof {
        lemma_opening_at(st@.conn.opening, our_id, 0);
        lemma_channel_at(st@.conn.channels, our_id, 0);
    }
    let opening: Opening = st.conn_st.opening.remove(i);
    let ghost before = st.conn_st@.channels;
    st.conn_st.channels.push(
        ChannelState::new(
            our_id,
            their_id,
            opening.recv_window_max,
            opening.recv_packet_len_max,
            window,
            packet_len_max,
        ),
    );
    assert(st.conn_st@.channels =~= before.push(
        ChannelView::opened(
            our_id,
            their_id,
            opening.recv_window_max,
            opening.recv_packet_len_max,
            window,
            packet_len_max,
        ),
    ));
    Ok(ChannelOpened { confirmed_tx: opening.confirmed_tx, our_id, confirm_payload })
}

/// The peer refused to open a channel.
pub struct OpenFailed {
    /// The number under which the one who asked is told.
    pub confirmed_tx: u64,
    /// Why the peer refused, as a number.
    pub reason_code: u32,
    /// Why the peer refused, in words.
    pub description: Vec<u8>,
}

/// What `SSH_MSG_CHANNEL_OPEN_FAILURE` holds after the message number: our
/// number of the channel, the reason as a number and in words, and the
/// language of the words.
pub open spec fn parse_open_failure(body: Seq<u8>) -> Option<(u32, u32, Seq<u8>)> {
    match wire::parse_u32(body) {
        None => None,
        Some((our_id, rest)) => match wire::parse_u32(rest) {
            None => None,
            Some((reason_code, rest)) => match wire::parse_string(rest) {
                None => None,
                Some((description, rest)) => match wire::parse_string(rest) {
                    None => None,
                    Some(_) => Some((our_id, reason_code, description)),
                },
            },
        },
    }
}

/// What receiving `SSH_MSG_CHANNEL_OPEN_FAILURE` makes of the channels, and
/// for whom it is: the channel that we asked for is forgotten.
pub open spec fn received_open_failure(pre: ConnView, body: Seq<u8>) -> Result<
    (ConnView, u64),
    Error,
> {
    match parse_open_failure(body) {
        None => Err(Error::Decode(TRUNCATED)),
        Some((our_id, _, _)) => match opening_at(pre.opening, our_id, 0) {
            None => Err(Error::Protocol(UNKNOWN_OPEN)),
            Some(i) => Ok(
                (ConnView { opening: pre.opening.remove(i), ..pre }, pre.opening[i].confirmed_tx),
            ),
        },
    }
}

/// Takes `SSH_MSG_CHANNEL_OPEN_FAILURE`, whose message number has been read
/// from `payload` already. On failure the state stays as it is.
pub fn recv_channel_open_failure(st: &mut ClientState, payload: PacketDecode) -> (r: Result<
    OpenFailed,
    Error,
>)
    requires
        old(st)@.wf(),
    ensures
        match received_open_failure(old(st)@.conn, payload.remaining()) {
            Ok((conn, confirmed_tx)) => {
                &&& r matches Ok(failed)
                &&& parse_open_failure(payload.remaining()) matches Some(
                    (_, reason_code, description),
                )
                &&& failed.confirmed_tx == confirmed_tx
                &&& failed.reason_code == reason_code
                &&& failed.description@ == description
                &&& final(st)@ == (ClientStateView { conn, ..old(st)@ })
            },
            Err(e) => r matches Err(err) && err == e && final(st)@ == old(st)@,
        },
        final(st)@.wf(),
        final(st)@.follows(old(st)@),
{
    let mut payload = payload;
    let our_id: u32 = payload.get_u32()?;
    let reason_code: u32 = payload.get_u32()?;
    let description: Vec<u8> = payload.get_bytes()?;
    let _language: Vec<u8> = payload.get_bytes()?;
    let i: usize = match find_opening(&st.conn_st.opening, our_id) {
        Some(i) => i,
        None => {
            return Err(Error::Protocol(UNKNOWN_OPEN));
        },
    };
    let opening: Opening = st.conn_st.opening.remove(i);
    Ok(OpenFailed { confirmed_tx: opening.confirmed_tx, reason_code, description })
}

/// Data came in on a channel.
pub struct ChannelData {
    /// The number of the channel.
    pub our_id: u32,
    /// The kind of the data where it is extended data: 1 for the error stream.
    pub data_type_code: Option<u32>,
    /// The data.
    pub data: Vec<u8>,
}

/// What `SSH_MSG_CHANNEL_DATA` holds after the message number, and, with
/// `extended`, what `SSH_MSG_CHANNEL_EXTENDED_DATA` holds: our number of the
/// channel, the kind of extended data, and the data.
pub open spec fn parse_channel_data(body: Seq<u8>, extended: bool) -> Option<
    (u32, Option<u32>, Seq<u8>),
> {
    match wire::parse_u32(body) {
        None => None,
        Some((our_id, rest)) => if extended {
            match wire::parse_u32(rest) {
                None => None,
                Some((code, rest)) => match wire::parse_string(rest) {
                    None => None,
                    Some((data, _)) => Some((our_id, Some(code), data)),
                },
            }
        } else {
            match wire::parse_string(rest) {
                None => None,
                Some((data, _)) => Some((our_id, None, data)),
            }
        },
    }
}

/// What receiving data makes of the state: the data is taken off the window
/// of its channel, and a window adjustment goes out when the window is filled
/// up again.
pub open spec fn received_channel_data(pre: ClientStateView, body: Seq<u8>, extended: bool) -> Result<
    ClientStateView,
    Error,
> {
    match parse_channel_data(body, extended) {
        None => Err(Error::Decode(TRUNCATED)),
        Some((our_id, _, data)) => match pre.conn.channel(our_id) {
            None => Err(Error::Protocol(UNKNOWN_CHANNEL)),
            Some(i) => match pre.conn.channels[i].received_data(data.len()) {
                Err(e) => Err(e),
                Ok((channel, adjust)) => Ok(
                    with_conn(
                        pre,
                        ConnView { channels: pre.conn.channels.update(i, channel), ..pre.conn },
                        match adjust {
                            Some(n) => pre.codec.send_pipe.fed(
                                window_adjust_payload(channel.their_id, n),
                            ),
                            None => pre.codec.send_pipe,
                        },
                    ),
                ),
            },
        },
    }
}

/// Takes `SSH_MSG_CHANNEL_DATA` or, with `extended`,
/// `SSH_MSG_CHANNEL_EXTENDED_DATA`, whose message number has been read from
/// `payload` already. On failure the state stays as it is.
pub fn recv_channel_data(st: &mut ClientState, payload: PacketDecode, extended: bool) -> (r: Result<
    ChannelData,
    Error,
>)
    requires
        old(st)@.wf(),
    ensures
        match received_channel_data(old(st)@, payload.remaining(), extended) {
            Ok(post) => {
                &&& r matches Ok(event)
                &&& parse_channel_data(payload.remaining(), extended) matches Some(
                    (our_id, code, data),
                )
                &&& event.our_id == our_id
                &&& event.data_type_code == code
                &&& event.data@ == data
                &&& final(st)@ == post
            },
            Err(e) => r matches Err(err) && err == e && final(st)@ == old(st)@,
        },
        final(st)@.wf(),
        final(st)@.follows(old(st)@),
{
    let mut payload = payload;
    let our_id: u32 = payload.get_u32()?;
    let data_type_code: Option<u32> = if extended {
        Some(payload.get_u32()?)
    } else {
        None
    };
    let data: Vec<u8> = payload.get_bytes()?;
    let i: usize = match find_channel(&st.conn_st.channels, our_id) {
        Some(i) => i,
        None => {
            return Err(Error::Protocol(UNKNOWN_CHANNEL));
        },
    };
    let ghost before = st.conn_st@.channels;
    let mut channel: ChannelState = st.conn_st.channels.remove(i);
    let adjust: Option<u32> = match channel.recv_data(data.len()) {
        Ok(adjust) => adjust,
        Err(e) => {
            st.conn_st.channels.insert(i, channel);
            assert(st.conn_st@.channels =~= before);
            return Err(e);
        },
    };
    let their_id: u32 = channel.their_id;
    let ghost after = channel@;
    st.conn_st.channels.insert(i, channel);
    assert(st.conn_st@.channels =~= before.update(i as int, after));
    if let Some(n) = adjust {
        let mut payload = PacketEncode::new();
        payload.put_u8(msg::CHANNEL_WINDOW_ADJUST);
        payload.put_u32(their_id);
        payload.put_u32(n);
        assert(payload@ =~= window_adjust_payload(their_id, n));
        st.codec.send_pipe.feed_packet(payload.as_bytes());
    }
    Ok(ChannelData { our_id, data_type_code, data })
}

/// What `SSH_MSG_CHANNEL_WINDOW_ADJUST` holds after the message number: our
/// number of the channel and the octets that the peer allows in addition.
pub open spec fn parse_window_adjust(body: Seq<u8>) -> Option<(u32, u32)> {
    match wire::parse_u32(body) {
        None => None,
        Some((our_id, rest)) => match wire::parse_u32(rest) {
            None => None,
            Some((n, _)) => Some((our_id, n)),
        },
    }
}

/// What receiving `SSH_MSG_CHANNEL_WINDOW_ADJUST` makes of the channels.
pub open spec fn received_window_adjust(pre: ConnView, body: Seq<u8>) -> Result<ConnView, Error> {
    match parse_window_adjust(body) {
        None => Err(Error::Decode(TRUNCATED)),
        Some((our_id, n)) => match pre.channel(our_id) {
            None => Err(Error::Protocol(UNKNOWN_CHANNEL)),
            Some(i) => match pre.channels[i].adjusted(n) {
                Err(e) => Err(e),
                Ok(channel) => Ok(ConnView { channels: pre.channels.update(i, channel), ..pre }),
            },
        },
    }
}

/// Takes `SSH_MSG_CHANNEL_WINDOW_ADJUST`, whose message number has been read
/// from `payload` already, and gives the number of the channel, which may now
/// be able to send. On failure the state stays as it is.
pub fn recv_channel_window_adjust(st: &mut ClientState, payload: PacketDecode) -> (r: Result<
    u32,
    Error,
>)
    requires
        old(st)@.wf(),
    ensures
        match received_window_adjust(old(st)@.conn, payload.remaining()) {
            Ok(conn) => {
                &&& parse_window_adjust(payload.remaining()) matches Some((our_id, _))
                &&& r == Ok::<u32, Error>(our_id)
                &&& final(st)@ == (ClientStateView { conn, ..old(st)@ })
            },
            Err(e) => r matches Err(err) && err == e && final(st)@ == old(st)@,
        },
        final(st)@.wf(),
        final(st)@.follows(old(st)@),
{
    let mut payload = payload;
    let our_id: u32 = payload.get_u32()?;
    let n: u32 = payload.get_u32()?;
    let i: usize = match find_channel(&st.conn_st.channels, our_id) {
        Some(i) => i,
        None => {
            return Err(Error::Protocol(UNKNOWN_CHANNEL));
        },
    };
    let ghost before = st.conn_st@.channels;
    let mut channel: ChannelState = st.conn_st.channels.remove(i);
    let r: Result<(), Error> = channel.recv_window_adjust(n);
    let ghost after = channel@;
    st.conn_st.channels.insert(i, channel);
    assert(st.conn_st@.channels =~= before.update(i as int, after));
    match r {
        Ok(()) => Ok(our_id),
        Err(e) => {
            assert(st.conn_st@.channels =~= before);
            Err(e)
        },
    }
}

/// What receiving `SSH_MSG_CHANNEL_EOF` makes of the channels: the peer's
/// side of the channel is ended, and the channel stays.
pub open spec fn received_channel_eof(pre: ConnView, body: Seq<u8>) -> Result<ConnView, Error> {
    match wire::parse_u32(body) {
        None => Err(Error::Decode(TRUNCATED)),
        Some((our_id, _)) => match pre.channel(our_id) {
            None => Err(Error::Protocol(UNKNOWN_CHANNEL)),
            Some(i) => if pre.channels[i].recv_eof || pre.channels[i].recv_close {
                Err(Error::Protocol(crate::client::channel::ENDED_TWICE))
            } else {
                Ok(
                    ConnView {
                        channels: pre.channels.update(
                            i,
                            ChannelView { recv_eof: true, ..pre.channels[i] },
                        ),
                        ..pre
                    },
                )
            },
        },
    }
}

/// Takes `SSH_MSG_CHANNEL_EOF`, whose message number has been read from
/// `payload` already, and gives the number of the channel. On failure the
/// state stays as it is.
pub fn recv_channel_eof(st: &mut ClientState, payload: PacketDecode) -> (r: Result<u32, Error>)
    requires
        old(st)@.wf(),
    ensures
        match received_channel_eof(old(st)@.conn, payload.remaining()) {
            Ok(conn) => {
                &&& wire::parse_u32(payload.remaining()) matches Some((our_id, _))
                &&& r == Ok::<u32, Error>(our_id)
                &&& final(st)@ == (ClientStateView { conn, ..old(st)@ })
            },
            Err(e) => r matches Err(err) && err == e && final(st)@ == old(st)@,
        },
        final(st)@.wf(),
        final(st)@.follows(old(st)@),
{
    let mut payload = payload;
    let our_id: u32 = payload.get_u32()?;
    let i: usize = match find_channel(&st.conn_st.channels, our_id) {
        Some(i) => i,
        None => {
            return Err(Error::Protocol(UNKNOWN_CHANNEL));
        },
    };
    let ghost before = st.conn_st@.channels;
    let mut channel: ChannelState = st.conn_st.channels.remove(i);
    let r: Result<(), Error> = channel.recv_eof();
    let ghost after = channel@;
    st.conn_st.channels.insert(i, channel);
    assert(st.conn_st@.channels =~= before.update(i as int, after));
    match r {
        Ok(()) => Ok(our_id),
        Err(e) => {
            assert(st.conn_st@.channels =~= before);
            Err(e)
        },
    }
}

/// What receiving `SSH_MSG_CHANNEL_CLOSE` makes of the state: we close the
/// channel too, if we have not yet, and with both sides closed the channel is
/// forgotten.
pub open spec fn received_channel_close(pre: ClientStateView, body: Seq<u8>) -> Result<
    ClientStateView,
    Error,
> {
    match wire::parse_u32(body) {
        None => Err(Error::Decode(TRUNCATED)),
        Some((our_id, _)) => match pre.conn.channel(our_id) {
            None => Err(Error::Protocol(UNKNOWN_CHANNEL)),
            Some(i) => if pre.conn.channels[i].recv_close {
                Err(Error::Protocol(crate::client::channel::ENDED_TWICE))
            } else {
                Ok(
                    with_conn(
                        pre,
                        ConnView { channels: pre.conn.channels.remove(i), ..pre.conn },
                        if pre.conn.channels[i].sent_close {
                            pre.codec.send_pipe
                        } else {
                            pre.codec.send_pipe.fed(
                                channel_payload(msg::CHANNEL_CLOSE, pre.conn.channels[i].their_id),
                            )
                        },
                    ),
                )
            },
        },
    }
}

/// Takes `SSH_MSG_CHANNEL_CLOSE`, whose message number has been read from
/// `payload` already, and gives the number of the channel, which is no more.
/// On failure the state stays as it is.
pub fn recv_channel_close(st: &mut ClientState, payload: PacketDecode) -> (r: Result<u32, Error>)
    requires
        old(st)@.wf(),
    ensures
        match received_channel_close(old(st)@, payload.remaining()) {
            Ok(post) => {
                &&& wire::parse_u32(payload.remaining()) matches Some((our_id, _))
                &&& r == Ok::<u32, Error>(our_id)
                &&& final(st)@ == post
            },
            Err(e) => r matches Err(err) && err == e && final(st)@ == old(st)@,
        },
        final(st)@.wf(),
        final(st)@.follows(old(st)@),
{
    let mut payload = payload;
    let our_id: u32 = payload.get_u32()?;
    let i: usize = match find_channel(&st.conn_st.channels, our_id) {
        Some(i) => i,
        None => {
            return Err(Error::Protocol(UNKNOWN_CHANNEL));
        },
    };
    if st.conn_st.channels[i].recv_close {
        return Err(Error::Protocol(crate::client::channel::ENDED_TWICE));
    }
    let ghost before = st.conn_st@.channels;
    let channel: ChannelState = st.conn_st.channels.remove(i);
    assert(st.conn_st@.channels =~= before.remove(i as int));
    if !channel.sent_close {
        let mut payload = PacketEncode::new();
        payload.put_u8(msg::CHANNEL_CLOSE);
        payload.put_u32(channel.their_id);
        assert(payload@ =~= channel_payload(msg::CHANNEL_CLOSE, channel.their_id));
        st.codec.send_pipe.feed_packet(payload.as_bytes());
    }
    Ok(our_id)
}

/// What sending as much of `data` as the peer's window allows makes of a
/// channel and of the send pipe, and how many octets go out: packet after
/// packet, until the data is sent or the next packet does not fit in the
/// window.
pub open spec fn sent_stream(
    channel: ChannelView,
    send_pipe: crate::codec::pipe::SendPipeView,
    data: Seq<u8>,
) -> (ChannelView, crate::codec::pipe::SendPipeView, nat)
    decreases data.len(),
{
    let frame = channel.frame_len(data.len());
    if frame == 0 || frame > data.len() {
        (channel, send_pipe, 0)
    } else {
        let (channel_after, pipe_after, sent) = sent_stream(
            channel.sent_data(data.len()),
            send_pipe.fed(channel_data_payload(channel.their_id, data.take(frame as int))),
            data.skip(frame as int),
        );
        (channel_after, pipe_after, frame + sent)
    }
}

/// Sends as much of `data` on the channel `our_id` as the peer's window
/// allows, and tells how many octets went out. What did not go out can be
/// offered again once the peer has opened its window.
pub fn send_channel_data(st: &mut ClientState, our_id: u32, data: &[u8]) -> (r: Result<
    usize,
    Error,
>)
    requires
        old(st)@.wf(),
    ensures
        match old(st)@.conn.channel(our_id) {
            None => r == Err::<usize, Error>(Error::ChannelClosed) && final(st)@ == old(st)@,
            Some(i) => {
                let (channel, send_pipe, sent) = sent_stream(
                    old(st)@.conn.channels[i],
                    old(st)@.codec.send_pipe,
                    data@,
                );
                &&& r == Ok::<usize, Error>(sent as usize)
                &&& sent <= data@.len()
                &&& final(st)@ == with_conn(
                    old(st)@,
                    ConnView {
                        channels: old(st)@.conn.channels.update(i, channel),
                        ..old(st)@.conn
                    },
                    send_pipe,
                )
            },
        },
        final(st)@.wf(),
        final(st)@.follows(old(st)@),
{
    let i: usize = match find_channel(&st.conn_st.channels, our_id) {
        Some(i) => i,
        None => {
            return Err(Error::ChannelClosed);
        },
    };
    let ghost before = st.conn_st@.channels;
    let ghost pipe_before = st@.codec.send_pipe;
    let mut channel: ChannelState = st.conn_st.channels.remove(i);
    let ghost channel_before = channel@;
    let their_id: u32 = channel.their_id;
    let n: usize = data.len();
    let mut sent: usize = 0;
    assert(data@.skip(0) =~= data@);
    assert(st.conn_st@.channels =~= before.remove(i as int));
    loop
        invariant
            n == data@.len(),
            sent <= n,
            i < before.len(),
            before == old(st)@.conn.channels,
            st.conn_st.channels@.len() == before.len() - 1,
            old(st)@.wf(),
            channel_before == before[i as int],
            st@.codec.send_pipe.sent_bytes == old(st)@.codec.send_pipe.sent_bytes,
            channel@.wf(),
            channel@.their_id == their_id,
            channel@.our_id == channel_before.our_id,
            st@ == with_conn(
                old(st)@,
                ConnView { channels: before.remove(i as int), ..old(st)@.conn },
                st@.codec.send_pipe,
            ),
            ({
                let (channel_after, pipe_after, more) = sent_stream(
                    channel@,
                    st@.codec.send_pipe,
                    data@.skip(sent as int),
                );
                sent_stream(channel_before, pipe_before, data@) == (
                    channel_after,
                    pipe_after,
                    (sent + more) as nat,
                )
            }),
        ensures
            sent_stream(channel_before, pipe_before, data@) == (
                channel@,
                st@.codec.send_pipe,
                sent as nat,
            ),
        decreases n - sent,
    {
        let frame: usize = channel.send_data(n - sent) as usize;
        if frame == 0 || frame > n - sent {
            break ;
        }
        let mut payload = PacketEncode::new();
        payload.put_u8(msg::CHANNEL_DATA);
        payload.put_u32(their_id);
        payload.put_bytes(slice_of(data, sent, sent + frame));
        assert(data@.subrange(sent as int, sent + frame) =~= data@.skip(sent as int).take(
            frame as int,
        ));
        assert(payload@ =~= channel_data_payload(
            their_id,
            data@.skip(sent as int).take(frame as int),
        ));
        st.codec.send_pipe.feed_packet(payload.as_bytes());
        assert(data@.skip(sent as int).skip(frame as int) =~= data@.skip(sent + frame));
        sent = sent + frame;
    }
    let ghost after = channel@;
    let ghost others = st.conn_st@.channels;
    assert(others == before.remove(i as int));
    st.conn_st.channels.insert(i, channel);
    assert(st.conn_st@.channels =~= others.insert(i as int, after));
    assert(st.conn_st@.channels =~= before.update(i as int, after));
    proof {
        lemma_channel_at(before, our_id, 0);
    }
    Ok(sent)
}

/// The octets of `data` from `from` up to `to`.
pub fn slice_of(data: &[u8], from: usize, to: usize) -> (part: &[u8])
    requires
        from <= to <= data@.len(),
    ensures
        part@ == data@.subrange(from as int, to as int),
{
    vstd::slice::slice_subrange(data, from, to)
}

/// What ending or closing our side of a channel makes of the state: the
/// message goes out unless it went out before.
pub open spec fn sent_channel_end(pre: ClientStateView, our_id: u32, close: bool) -> Result<
    ClientStateView,
    Error,
> {
    match pre.conn.channel(our_id) {
        None => Err(Error::ChannelClosed),
        Some(i) => {
            let channel = pre.conn.channels[i];
            let send = if close {
                !channel.sent_close
            } else {
                !channel.sent_eof && !channel.sent_close
            };
            let ended = if close {
                ChannelView { sent_close: true, ..channel }
            } else {
                ChannelView { sent_eof: channel.sent_eof || send, ..channel }
            };
            Ok(
                with_conn(
                    pre,
                    ConnView { channels: pre.conn.channels.update(i, ended), ..pre.conn },
                    if send {
                        pre.codec.send_pipe.fed(
                            channel_payload(
                                if close {
                                    msg::CHANNEL_CLOSE
                                } else {
                                    msg::CHANNEL_EOF
                                },
                                channel.their_id,
                            ),
                        )
                    } else {
                        pre.codec.send_pipe
                    },
                ),
            )
        },
    }
}

/// Ends our side of the channel `our_id` with `SSH_MSG_CHANNEL_EOF` or, with
/// `close`, closes the channel with `SSH_MSG_CHANNEL_CLOSE`. The channel is
/// kept until the peer has closed it too.
pub fn send_channel_end(st: &mut ClientState, our_id: u32, close: bool) -> (r: Result<(), Error>)
    requires
        old(st)@.wf(),
    ensures
        match sent_channel_end(old(st)@, our_id, close) {
            Ok(post) => r is Ok && final(st)@ == post,
            Err(e) => r == Err::<(), Error>(e) && final(st)@ == old(st)@,
        },
        final(st)@.wf(),
        final(st)@.follows(old(st)@),
{
    let i: usize = match find_channel(&st.conn_st.channels, our_id) {
        Some(i) => i,
        None => {
            return Err(Error::ChannelClosed);
        },
    };
    let ghost before = st.conn_st@.channels;
    let mut channel: ChannelState = st.conn_st.channels.remove(i);
    let send: bool = if close {
        channel.send_close()
    } else {
        channel.send_eof()
    };
    let their_id: u32 = channel.their_id;
    let ghost after = channel@;
    st.conn_st.channels.insert(i, channel);
    assert(st.conn_st@.channels =~= before.update(i as int, after));
    if send {
        let msg_id: u8 = if close {
            msg::CHANNEL_CLOSE
        } else {
            msg::CHANNEL_EOF
        };
        let mut payload = PacketEncode::new();
        payload.put_u8(msg_id);
        payload.put_u32(their_id);
        assert(payload@ =~= channel_payload(msg_id, their_id));
        st.codec.send_pipe.feed_packet(payload.as_bytes());
    }
    Ok(())
}

/// The reason given when the type of a request is too long for the wire.
pub const REQUEST_TOO_LONG: &'static str = "the type of the channel request is too long";

/// The payload of `SSH_MSG_CHANNEL_REQUEST`.
pub open spec fn channel_request_payload(
    their_id: u32,
    request_type: Seq<u8>,
    want_reply: bool,
    payload: Seq<u8>,
) -> Seq<u8> {
    seq![msg::CHANNEL_REQUEST] + wire::u32_be(their_id) + wire::string(request_type) + seq![
        wire::bool_octet(want_reply),
    ] + payload
}

/// What sending a request on a channel makes of the state: the request goes
/// out, and where it wants a reply, the one who made it is noted behind those
/// who wait already.
pub open spec fn sent_channel_request(
    pre: ClientStateView,
    our_id: u32,
    request_type: Seq<u8>,
    want_reply: bool,
    payload: Seq<u8>,
    waiter: u64,
) -> Result<ClientStateView, Error> {
    match pre.conn.channel(our_id) {
        None => Err(Error::ChannelClosed),
        Some(i) => {
            let channel = pre.conn.channels[i];
            if channel.sent_close {
                Err(Error::ChannelClosed)
            } else if request_type.len() > u32::MAX {
                Err(Error::Limit(REQUEST_TOO_LONG))
            } else {
                Ok(
                    with_conn(
                        pre,
                        ConnView {
                            channels: pre.conn.channels.update(
                                i,
                                if want_reply {
                                    ChannelView {
                                        requests: channel.requests.push(waiter),
                                        ..channel
                                    }
                                } else {
                                    channel
                                },
                            ),
                            ..pre.conn
                        },
                        pre.codec.send_pipe.fed(
                            channel_request_payload(
                                channel.their_id,
                                request_type,
                                want_reply,
                                payload,
                            ),
                        ),
                    ),
                )
            }
        },
    }
}

/// Sends a request, such as "exec", "shell" or "pty-req", on the channel
/// `our_id`. With `want_reply`, the reply will be for `waiter`. On failure the
/// state stays as it is.
pub fn send_channel_request(
    st: &mut ClientState,
    our_id: u32,
    request_type: &[u8],
    want_reply: bool,
    payload: &[u8],
    waiter: u64,
) -> (r: Result<(), Error>)
    requires
        old(st)@.wf(),
    ensures
        match sent_channel_request(
            old(st)@,
            our_id,
            request_type@,
            want_reply,
            payload@,
            waiter,
        ) {
            Ok(post) => r is Ok && final(st)@ == post,
            Err(e) => r == Err::<(), Error>(e) && final(st)@ == old(st)@,
        },
        final(st)@.wf(),
        final(st)@.follows(old(st)@),
{
    let i: usize = match find_channel(&st.conn_st.channels, our_id) {
        Some(i) => i,
        None => {
            return Err(Error::ChannelClosed);
        },
    };
    if st.conn_st.channels[i].sent_close {
        return Err(Error::ChannelClosed);
    }
    if request_type.len() as u64 > u32::MAX as u64 {
        return Err(Error::Limit(REQUEST_TOO_LONG));
    }
    let ghost before = st.conn_st@.channels;
    let mut channel: ChannelState = st.conn_st.channels.remove(i);
    if want_reply {
        channel.send_request(waiter);
    }
    let their_id: u32 = channel.their_id;
    let ghost after = channel@;
    st.conn_st.channels.insert(i, channel);
    assert(st.conn_st@.channels =~= before.update(i as int, after));

    let mut packet = PacketEncode::new();
    packet.put_u8(msg::CHANNEL_REQUEST);
    packet.put_u32(their_id);
    packet.put_bytes(request_type);
    packet.put_bool(want_reply);
    packet.put_raw(payload);
    assert(packet@ =~= channel_request_payload(their_id, request_type@, want_reply, payload@));
    st.codec.send_pipe.feed_packet(packet.as_bytes());
    Ok(())
}

/// The reply to a request on a channel.
#[derive(Debug, Clone, Copy, PartialEq, Eq, Structural)]
pub struct RequestReply {
    /// The number of the channel.
    pub our_id: u32,
    /// The one who made the request.
    pub waiter: u64,
    /// Whether the request succeeded.
    pub success: bool,
}

/// What receiving `SSH_MSG_CHANNEL_SUCCESS` or `SSH_MSG_CHANNEL_FAILURE` makes
/// of the channels, and whom it answers: the one who has waited longest on the
/// channel.
pub open spec fn received_channel_reply(pre: ConnView, body: Seq<u8>, success: bool) -> Result<
    (RequestReply, ConnView),
    Error,
> {
    match wire::parse_u32(body) {
        None => Err(Error::Decode(TRUNCATED)),
        Some((our_id, _)) => match pre.channel(our_id) {
            None => Err(Error::Protocol(UNKNOWN_CHANNEL)),
            Some(i) => if pre.channels[i].requests.len() == 0 {
                Err(Error::Protocol(crate::client::channel::NO_REQUEST))
            } else {
                Ok(
                    (
                        RequestReply { our_id, waiter: pre.channels[i].requests[0], success },
                        ConnView {
                            channels: pre.channels.update(
                                i,
                                ChannelView {
                                    requests: pre.channels[i].requests.skip(1),
                                    ..pre.channels[i]
                                },
                            ),
                            ..pre
                        },
                    ),
                )
            },
        },
    }
}

/// Takes `SSH_MSG_CHANNEL_SUCCESS` or `SSH_MSG_CHANNEL_FAILURE`, whose message
/// number has been read from `payload` already. On failure the state stays as
/// it is.
pub fn recv_channel_reply(st: &mut ClientState, payload: PacketDecode, success: bool) -> (r:
    Result<RequestReply, Error>)
    requires
        old(st)@.wf(),
    ensures
        match received_channel_reply(old(st)@.conn, payload.remaining(), success) {
            Ok((reply, conn)) => r == Ok::<RequestReply, Error>(reply) && final(st)@ == (
            ClientStateView { conn, ..old(st)@ }),
            Err(e) => r == Err::<RequestReply, Error>(e) && final(st)@ == old(st)@,
        },
        final(st)@.wf(),
        final(st)@.follows(old(st)@),
{
    let mut payload = payload;
    let our_id: u32 = payload.get_u32()?;
    let i: usize = match find_channel(&st.conn_st.channels, our_id) {
        Some(i) => i,
        None => {
            return Err(Error::Protocol(UNKNOWN_CHANNEL));
        },
    };
    let ghost before = st.conn_st@.channels;
    let mut channel: ChannelState = st.conn_st.channels.remove(i);
    let r: Result<u64, Error> = channel.recv_reply();
    let ghost after = channel@;
    st.conn_st.channels.insert(i, channel);
    assert(st.conn_st@.channels =~= before.update(i as int, after));
    match r {
        Ok(waiter) => Ok(RequestReply { our_id, waiter, success }),
        Err(e) => {
            assert(st.conn_st@.channels =~= before);
            Err(e)
        },
    }
}

impl ClientState {
    /// The open channel that the peer names `our_id`, if there is one.
    pub fn channel(&self, our_id: u32) -> (channel: Option<&ChannelState>)
        ensures
            match self@.conn.channel(our_id) {
                Some(i) => channel matches Some(found) && found@ == self@.conn.channels[i],
                None => channel is None,
            },
    {
        match find_channel(&self.conn_st.channels, our_id) {
            Some(i) => Some(&self.conn_st.channels[i]),
            None => None,
        }
    }

    /// How many channels are open.
    pub fn channel_count(&self) -> (n: usize)
        ensures
            n == self@.conn.channels.len(),
    {
        self.conn_st.channels.len()
    }
}

/// No number names two open channels: where a channel is open under a number,
/// it is the only one under that number, and it stays until the peer has
/// closed it.
pub proof fn lemma_one_record_per_channel(conn: ConnView, i: int, j: int)
    requires
        conn.wf(),
        0 <= i < conn.channels.len(),
        0 <= j < conn.channels.len(),
        conn.channels[i].our_id == conn.channels[j].our_id,
    ensures
        i == j,
        conn.channel(conn.channels[i].our_id) == Some(i),
{
    lemma_channel_at(conn.channels, conn.channels[i].our_id, 0);
}

} // verus!
