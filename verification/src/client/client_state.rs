//! The state of a client.

use crate::buf;
use crate::client::auth::{init_auth, AuthState, AuthView};
use crate::client::client_event::{ClientEvent, Finished};
use crate::client::config::{ClientConfig, ClientConfigView};
use crate::client::conn::{init_conn, ConnState, ConnView};
use crate::cipher::PacketDecrypt;
use crate::client::negotiate::{
    init_last_kex, init_negotiate, Algos, LastKex, NegotiateState, NegotiateView, State,
};
use crate::codec::pipe::{counted, next_seq, Outbound, RecvPipeView, SendPipeView};
use crate::codec::wire;
use crate::codec::{Codec, CodecView};
use crate::error::Error;
use vstd::prelude::*;
use vstd::string::StringSliceAdditionalSpecFns;

verus! {

/// The identification string that we send, without the line end.
pub const OUR_IDENT: &'static str = "SSH-2.0-makiko_0.1.0";

/// The reason given when the names of a list of algorithms do not fit in a
/// name-list.
pub const NAMES_TOO_LONG: &'static str = "the names of the algorithms are too long";

/// The state of a client. It is created by [`new_client`] and advanced by the
/// functions of the modules beside this one.
pub struct ClientState {
    pub(crate) config: ClientConfig,
    pub(crate) our_ident: bytes::Bytes,
    pub(crate) their_ident: Option<bytes::Bytes>,
    pub(crate) codec: Codec,
    pub(crate) session_id: Option<bytes::Bytes>,
    pub(crate) negotiate_st: NegotiateState,
    pub(crate) last_kex: LastKex,
    pub(crate) auth_st: AuthState,
    pub(crate) conn_st: ConnState,
    pub(crate) event: Option<ClientEvent>,
    pub(crate) finished: Vec<Finished>,
    pub(crate) wakeup: bool,
}

/// What a [`ClientState`] holds.
pub struct ClientStateView {
    /// The configuration.
    pub config: ClientConfigView,
    /// Our identification string.
    pub our_ident: Seq<u8>,
    /// The peer's identification string, once it has been read.
    pub their_ident: Option<Seq<u8>>,
    /// The two directions of the packet stream.
    pub codec: CodecView,
    /// The exchange hash of the first key exchange, once there is one.
    pub session_id: Option<Seq<u8>>,
    /// The key exchange that is under way, if any.
    pub negotiate: NegotiateView,
    /// When the last key exchange was completed.
    pub last_kex: LastKex,
    /// Whether the server has authenticated us.
    pub authenticated: bool,
    /// The attempt to authenticate that is under way.
    pub auth: AuthView,
    /// The channels.
    pub conn: ConnView,
    /// The event that waits for the application to take it.
    pub event: Option<ClientEvent>,
    /// The answers to requests for a key exchange that wait to be delivered.
    pub finished: Seq<Finished>,
    /// Whether the driver was asked to step the client again.
    pub wakeup: bool,
}

/// The octets of a buffer that may be absent.
pub open spec fn contents_of(b: Option<bytes::Bytes>) -> Option<Seq<u8>> {
    match b {
        Some(b) => Some(buf::contents(b)),
        None => None,
    }
}

impl View for ClientState {
    type V = ClientStateView;

    open(crate) spec fn view(&self) -> ClientStateView {
        ClientStateView {
            config: self.config@,
            our_ident: buf::contents(self.our_ident),
            their_ident: contents_of(self.their_ident),
            codec: self.codec@,
            session_id: contents_of(self.session_id),
            negotiate: self.negotiate_st@,
            last_kex: self.last_kex,
            authenticated: self.auth_st.authenticated,
            auth: self.auth_st@,
            conn: self.conn_st@,
            event: self.event,
            finished: self.finished@,
            wakeup: self.wakeup,
        }
    }
}

impl ClientConfigView {
    /// Each list of algorithms fits in a name-list.
    pub open spec fn fits_wire(self) -> bool {
        &&& wire::join(named(self.kex_algos).push(EXT_INFO_C.spec_bytes())).len() <= u32::MAX
        &&& wire::join(named(self.server_pubkey_algos)).len() <= u32::MAX
        &&& wire::join(named(self.cipher_algos)).len() <= u32::MAX
        &&& wire::join(named(self.mac_algos)).len() <= u32::MAX
    }
}

/// The name by which we tell the server that we understand
/// `SSH_MSG_EXT_INFO` (RFC 8308).
pub const EXT_INFO_C: &'static str = "ext-info-c";

/// Something that has a name on the wire.
pub trait NamedAlgo: Copy {
    /// The name.
    spec fn spec_name(&self) -> &'static str;

    /// The name.
    fn name(&self) -> (name: &'static str)
        ensures
            name == self.spec_name(),
    ;
}

impl NamedAlgo for crate::kex::KexAlgo {
    open spec fn spec_name(&self) -> &'static str {
        self.name
    }

    fn name(&self) -> (name: &'static str) {
        self.name
    }
}

impl NamedAlgo for crate::cipher::CipherAlgo {
    open spec fn spec_name(&self) -> &'static str {
        self.name
    }

    fn name(&self) -> (name: &'static str) {
        self.name
    }
}

impl NamedAlgo for crate::mac::MacAlgo {
    open spec fn spec_name(&self) -> &'static str {
        self.name
    }

    fn name(&self) -> (name: &'static str) {
        self.name
    }
}

impl NamedAlgo for crate::pubkey::PubkeyAlgo {
    open spec fn spec_name(&self) -> &'static str {
        self.name
    }

    fn name(&self) -> (name: &'static str) {
        self.name
    }
}

/// The names of `algos` as they go on the wire, in order.
pub open spec fn named<A: NamedAlgo>(algos: Seq<A>) -> Seq<Seq<u8>> {
    Seq::new(algos.len(), |i: int| algos[i].spec_name().spec_bytes())
}

impl ClientStateView {
    /// What the parts of the state owe each other.
    pub open spec fn wf(self) -> bool {
        &&& self.config.fits_wire()
        &&& self.negotiate.wf()
        &&& self.auth.wf()
        &&& self.conn.wf()
        &&& self.negotiate.their_kex_init is Some ==> self.their_ident is Some
        &&& self.negotiate.kex_output is Some ==> self.session_id is Some
        &&& self.last_kex.done ==> self.session_id is Some
        &&& self.last_kex.recvd_bytes <= self.codec.recv_pipe.recvd_bytes
        &&& self.last_kex.sent_bytes <= self.codec.send_pipe.sent_bytes
    }

    /// What holds between a state and every state that comes after it: the
    /// session identifier, once set, stays as it is; once authenticated, always
    /// authenticated; the octet counters never fall.
    pub open spec fn follows(self, before: ClientStateView) -> bool {
        &&& before.session_id is Some ==> self.session_id == before.session_id
        &&& before.authenticated ==> self.authenticated
        &&& before.their_ident is Some ==> self.their_ident == before.their_ident
        &&& self.our_ident == before.our_ident
        &&& self.config == before.config
        &&& self.codec.recv_pipe.recvd_bytes >= before.codec.recv_pipe.recvd_bytes
        &&& self.codec.send_pipe.sent_bytes >= before.codec.send_pipe.sent_bytes
    }

    /// The state of a client that has just been created.
    pub open spec fn fresh(config: ClientConfigView, now: u64) -> ClientStateView {
        ClientStateView {
            config,
            our_ident: OUR_IDENT.spec_bytes(),
            their_ident: None,
            codec: CodecView { send_pipe: SendPipeView::fresh(), recv_pipe: RecvPipeView::fresh() },
            session_id: None,
            negotiate: NegotiateView::fresh(State::KexInit),
            last_kex: LastKex { done: false, recvd_bytes: 0, sent_bytes: 0, instant: now },
            authenticated: false,
            auth: AuthView::fresh(),
            conn: ConnView::fresh(),
            event: None,
            finished: Seq::empty(),
            wakeup: false,
        }
    }
}

/// The length of the names of `algos` joined by commas, or `None` if that is
/// more than `limit`.
pub fn joined_len<A: NamedAlgo>(algos: &Vec<A>, limit: usize) -> (len: Option<usize>)
    ensures
        match len {
            Some(n) => n == wire::join(named(algos@)).len() && n <= limit,
            None => wire::join(named(algos@)).len() > limit,
        },
{
    let n: usize = algos.len();
    let mut total: usize = 0;
    let mut i: usize = 0;
    assert(named(algos@).take(0) =~= Seq::<Seq<u8>>::empty());
    while i < n
        invariant
            n == algos@.len(),
            i <= n,
            total <= limit,
            total == wire::join(named(algos@).take(i as int)).len(),
        decreases n - i,
    {
        let ghost before = named(algos@).take(i as int);
        let ghost after = named(algos@).take(i + 1);
        proof {
            assert(after.drop_last() =~= before);
            assert(after.last() == algos@[i as int].spec_name().spec_bytes());
            lemma_join_grows(named(algos@), i + 1);
            if i == 0 {
                assert(wire::join(after) == after[0]);
            } else {
                assert(wire::join(after) == wire::join(before) + seq![wire::COMMA] + after.last());
            }
        }
        let name_len: usize = algos[i].name().as_bytes().len();
        let comma: usize = if i > 0 {
            1
        } else {
            0
        };
        if name_len > limit - total || comma > limit - total - name_len {
            return None;
        }
        total = total + comma + name_len;
        i = i + 1;
    }
    assert(named(algos@).take(n as int) =~= named(algos@));
    Some(total)
}

/// The first names of a list, joined, are no longer than all of them joined.
pub proof fn lemma_join_grows(names: Seq<Seq<u8>>, k: int)
    requires
        0 <= k <= names.len(),
    ensures
        wire::join(names.take(k)).len() <= wire::join(names).len(),
    decreases names.len() - k,
{
    if k == names.len() {
        assert(names.take(k) =~= names);
    } else {
        lemma_join_grows(names, k + 1);
        let longer = names.take(k + 1);
        assert(longer.drop_last() =~= names.take(k));
    }
}

/// Whether each list of algorithms of `config` fits in a name-list.
pub fn config_fits_wire(config: &ClientConfig) -> (fits: bool)
    ensures
        fits == config@.fits_wire(),
{
    // the name "ext-info-c" follows the key exchange algorithms
    proof {
        reveal_strlit("ext-info-c");
        vstd::string::is_ascii_spec_bytes(EXT_INFO_C);
        let names = named(config@.kex_algos);
        let all = names.push(EXT_INFO_C.spec_bytes());
        assert(all.drop_last() =~= names);
    }
    let limit: usize = if usize::MAX as u64 > u32::MAX as u64 {
        u32::MAX as usize
    } else {
        usize::MAX
    };
    let kex: bool = match joined_len(&config.kex_algos, limit) {
        Some(n) => if config.kex_algos.len() == 0 {
            true
        } else {
            n <= limit - 11
        },
        None => false,
    };
    let pubkey: bool = joined_len(&config.server_pubkey_algos, limit).is_some();
    let cipher: bool = joined_len(&config.cipher_algos, limit).is_some();
    let mac: bool = joined_len(&config.mac_algos, limit).is_some();
    kex && pubkey && cipher && mac
}

/// Creates the state of a client that is about to start its first key
/// exchange. `now` is the reading of a monotonic clock, in milliseconds.
pub fn new_client(config: ClientConfig, now: u64) -> (r: Result<ClientState, Error>)
    ensures
        match r {
            Ok(st) => config@.fits_wire() && st@ == ClientStateView::fresh(config@, now)
                && st@.wf(),
            Err(e) => !config@.fits_wire() && e == Error::Config(NAMES_TOO_LONG),
        },
{
    if !config_fits_wire(&config) {
        return Err(Error::Config(NAMES_TOO_LONG));
    }
    let st = ClientState {
        config,
        our_ident: buf::copy_from_slice(OUR_IDENT.as_bytes()),
        their_ident: None,
        codec: Codec::new(),
        session_id: None,
        negotiate_st: init_negotiate(),
        last_kex: init_last_kex(now),
        auth_st: init_auth(),
        conn_st: init_conn(),
        event: None,
        finished: Vec::new(),
        wakeup: false,
    };
    assert(st@.finished =~= Seq::empty());
    Ok(st)
}

/// The reason given when the peer identifies itself a second time.
pub const IDENT_TWICE: &'static str = "received the identification string twice";

/// Takes the peer's identification string, without the line end. It comes
/// once, before any packet.
pub fn recv_ident(st: &mut ClientState, ident: &[u8]) -> (r: Result<(), Error>)
    requires
        old(st)@.wf(),
    ensures
        match old(st)@.their_ident {
            None => r is Ok && final(st)@ == (ClientStateView {
                their_ident: Some(ident@),
                ..old(st)@
            }),
            Some(_) => r == Err::<(), Error>(Error::Protocol(IDENT_TWICE)) && final(st)@ == old(
                st,
            )@,
        },
        final(st)@.wf(),
        final(st)@.follows(old(st)@),
{
    if st.their_ident.is_some() {
        return Err(Error::Protocol(IDENT_TWICE));
    }
    st.their_ident = Some(buf::copy_from_slice(ident));
    Ok(())
}

/// Takes the event that waits for the application, if there is one. This
/// frees the place for the next event.
pub fn take_event(st: &mut ClientState) -> (event: Option<ClientEvent>)
    requires
        old(st)@.wf(),
    ensures
        event == old(st)@.event,
        final(st)@ == (ClientStateView { event: None, ..old(st)@ }),
        final(st)@.wf(),
        final(st)@.follows(old(st)@),
{
    st.event.take()
}

/// Takes the answers to requests for a key exchange that have come up.
pub fn take_finished(st: &mut ClientState) -> (finished: Vec<Finished>)
    requires
        old(st)@.wf(),
    ensures
        finished@ == old(st)@.finished,
        final(st)@ == (ClientStateView { finished: Seq::empty(), ..old(st)@ }),
        final(st)@.wf(),
        final(st)@.follows(old(st)@),
{
    let mut finished: Vec<Finished> = Vec::new();
    core::mem::swap(&mut finished, &mut st.finished);
    finished
}

/// Tells whether the driver was asked to step the client again, and forgets
/// that it was.
pub fn take_wakeup(st: &mut ClientState) -> (wakeup: bool)
    requires
        old(st)@.wf(),
    ensures
        wakeup == old(st)@.wakeup,
        final(st)@ == (ClientStateView { wakeup: false, ..old(st)@ }),
        final(st)@.wf(),
        final(st)@.follows(old(st)@),
{
    let wakeup: bool = st.wakeup;
    st.wakeup = false;
    wakeup
}

/// Takes the next thing to do on the sending side: a payload to send as a
/// packet, or keys to protect the following packets with.
pub fn poll_write(st: &mut ClientState) -> (next: Option<Outbound>)
    requires
        old(st)@.wf(),
    ensures
        match next {
            Some(item) => old(st)@.codec.send_pipe.queue.len() > 0 && item@
                == old(st)@.codec.send_pipe.queue[0] && final(st)@ == (ClientStateView {
                codec: CodecView {
                    send_pipe: SendPipeView {
                        queue: old(st)@.codec.send_pipe.queue.skip(1),
                        ..old(st)@.codec.send_pipe
                    },
                    ..old(st)@.codec
                },
                ..old(st)@
            }),
            None => old(st)@.codec.send_pipe.queue.len() == 0 && final(st)@ == old(st)@,
        },
        final(st)@.wf(),
        final(st)@.follows(old(st)@),
{
    st.codec.send_pipe.poll_write()
}

/// Counts `n` octets that went out on the wire.
pub fn count_sent(st: &mut ClientState, n: usize)
    requires
        old(st)@.wf(),
    ensures
        final(st)@ == (ClientStateView {
            codec: CodecView {
                send_pipe: SendPipeView {
                    sent_bytes: counted(old(st)@.codec.send_pipe.sent_bytes, n),
                    ..old(st)@.codec.send_pipe
                },
                ..old(st)@.codec
            },
            ..old(st)@
        }),
        final(st)@.wf(),
        final(st)@.follows(old(st)@),
{
    st.codec.send_pipe.count_sent(n);
}

/// Counts one packet of `n` octets on the wire that was opened, and returns
/// its sequence number.
pub fn count_recvd(st: &mut ClientState, n: usize) -> (seq: u32)
    requires
        old(st)@.wf(),
    ensures
        seq == old(st)@.codec.recv_pipe.packet_seq,
        final(st)@ == (ClientStateView {
            codec: CodecView {
                recv_pipe: RecvPipeView {
                    packet_seq: next_seq(seq),
                    recvd_bytes: counted(old(st)@.codec.recv_pipe.recvd_bytes, n),
                    ..old(st)@.codec.recv_pipe
                },
                ..old(st)@.codec
            },
            ..old(st)@
        }),
        final(st)@.wf(),
        final(st)@.follows(old(st)@),
{
    st.codec.recv_pipe.count_recvd(n)
}

impl ClientState {
    /// The exchange hash of the first key exchange, once there is one.
    pub fn session_id(&self) -> (id: Option<&[u8]>)
        ensures
            match id {
                Some(octets) => self@.session_id == Some(octets@),
                None => self@.session_id is None,
            },
    {
        match &self.session_id {
            Some(id) => Some(buf::as_slice(id)),
            None => None,
        }
    }

    /// Whether an event waits for the application.
    pub fn has_event(&self) -> (waits: bool)
        ensures
            waits == self@.event is Some,
    {
        self.event.is_some()
    }

    /// Whether anything waits to be sent.
    pub fn has_outbound(&self) -> (waits: bool)
        ensures
            waits == (self@.codec.send_pipe.queue.len() > 0),
    {
        self.codec.send_pipe.has_outbound()
    }

    /// Our identification string, without the line end.
    pub fn our_ident(&self) -> (ident: &[u8])
        ensures
            ident@ == self@.our_ident,
    {
        buf::as_slice(&self.our_ident)
    }

    /// The configuration.
    pub fn config(&self) -> (config: &ClientConfig)
        ensures
            config@ == self@.config,
    {
        &self.config
    }

    /// Where the key exchange stands.
    pub fn negotiate_state(&self) -> (state: State)
        ensures
            state == self@.negotiate.state,
    {
        self.negotiate_st.state
    }

    /// The algorithms of the key exchange that is under way, once they are
    /// chosen.
    pub fn algos(&self) -> (algos: Option<Algos>)
        ensures
            algos == self@.negotiate.algos,
    {
        self.negotiate_st.algos
    }

    /// When the last key exchange was completed.
    pub fn last_kex(&self) -> (last_kex: LastKex)
        ensures
            last_kex == self@.last_kex,
    {
        self.last_kex
    }

    /// The keys that protect the next packet that comes in, with the length of
    /// their blocks and of their tags.
    pub fn decrypt(&self) -> (r: (&PacketDecrypt, usize, usize))
        ensures
            r.0@ == self@.codec.recv_pipe.keys,
            r.1 == self@.codec.recv_pipe.block_len,
            r.2 == self@.codec.recv_pipe.tag_len,
    {
        (
            self.codec.recv_pipe.keys(),
            self.codec.recv_pipe.block_len(),
            self.codec.recv_pipe.tag_len(),
        )
    }
}

/// The reason given when the words of a disconnection are too long for the
/// wire.
pub const DESCRIPTION_TOO_LONG: &'static str = "the description is too long";

/// The reason, as a number, for which an application ends the connection
/// (RFC 4253, section 11.1).
pub const DISCONNECT_BY_APPLICATION: u32 = 11;

/// The payload of `SSH_MSG_DISCONNECT`: the reason as a number and in words,
/// and no language.
pub open spec fn disconnect_payload(reason_code: u32, description: Seq<u8>) -> Seq<u8> {
    seq![crate::codes::msg::DISCONNECT] + wire::u32_be(reason_code) + wire::string(description)
        + wire::string(Seq::empty())
}

/// Tells the peer that we end the connection, and why. After the message has
/// gone out, the driver closes the stream. On failure the state stays as it
/// is.
pub fn disconnect(st: &mut ClientState, reason_code: u32, description: &[u8]) -> (r: Result<
    (),
    Error,
>)
    requires
        old(st)@.wf(),
    ensures
        if description@.len() <= u32::MAX {
            r is Ok && final(st)@ == (ClientStateView {
                codec: CodecView {
                    send_pipe: old(st)@.codec.send_pipe.fed(
                        disconnect_payload(reason_code, description@),
                    ),
                    ..old(st)@.codec
                },
                wakeup: true,
                ..old(st)@
            })
        } else {
            r == Err::<(), Error>(Error::Limit(DESCRIPTION_TOO_LONG)) && final(st)@ == old(st)@
        },
        final(st)@.wf(),
        final(st)@.follows(old(st)@),
{
    if description.len() as u64 > u32::MAX as u64 {
        return Err(Error::Limit(DESCRIPTION_TOO_LONG));
    }
    let mut payload = crate::codec::encode::PacketEncode::new();
    payload.put_u8(crate::codes::msg::DISCONNECT);
    payload.put_u32(reason_code);
    payload.put_bytes(description);
    let empty: Vec<u8> = Vec::new();
    payload.put_bytes(empty.as_slice());
    assert(payload@ =~= disconnect_payload(reason_code, description@));
    st.codec.send_pipe.feed_packet(payload.as_bytes());
    wakeup_client(st);
    Ok(())
}

/// Each state of `trace` but the first follows the one before it.
pub open spec fn is_history(trace: Seq<ClientStateView>) -> bool {
    forall|k: int| 0 <= k < trace.len() - 1 ==> #[trigger] follows_at(trace, k)
}

/// The state after the `k`-th follows the `k`-th.
pub open spec fn follows_at(trace: Seq<ClientStateView>, k: int) -> bool {
    trace[k + 1].follows(trace[k])
}

/// What follows a state that follows another, follows the other.
pub proof fn lemma_follows_is_transitive(
    first: ClientStateView,
    second: ClientStateView,
    third: ClientStateView,
)
    requires
        second.follows(first),
        third.follows(second),
    ensures
        third.follows(first),
{
}

/// In a history, every later state follows every earlier one.
pub proof fn lemma_history(trace: Seq<ClientStateView>, i: int, j: int)
    requires
        is_history(trace),
        0 <= i <= j < trace.len(),
    ensures
        trace[j].follows(trace[i]),
    decreases j - i,
{
    if i < j {
        lemma_history(trace, i, j - 1);
        assert(follows_at(trace, j - 1));
    }
}

/// The session identifier never changes: in every history of a client, in
/// which each state comes from the one before by any operation of this crate,
/// a state with a session identifier is followed only by states with the same
/// session identifier, however many key exchanges lie between them.
pub proof fn lemma_session_id_is_kept(trace: Seq<ClientStateView>, i: int, j: int)
    requires
        is_history(trace),
        0 <= i <= j < trace.len(),
        trace[i].session_id is Some,
    ensures
        trace[j].session_id == trace[i].session_id,
{
    lemma_history(trace, i, j);
}

/// Authentication is never undone: in every history of a client, a state in
/// which the client is authenticated is followed only by states in which it
/// is.
pub proof fn lemma_authenticated_is_kept(trace: Seq<ClientStateView>, i: int, j: int)
    requires
        is_history(trace),
        0 <= i <= j < trace.len(),
        trace[i].authenticated,
    ensures
        trace[j].authenticated,
{
    lemma_history(trace, i, j);
}

/// Asks the driver to step the client again.
pub fn wakeup_client(st: &mut ClientState)
    ensures
        final(st)@ == (ClientStateView { wakeup: true, ..old(st)@ }),
        final(st)@.follows(old(st)@),
        old(st)@.wf() ==> final(st)@.wf(),
{
    st.wakeup = true;
}

} // verus!
