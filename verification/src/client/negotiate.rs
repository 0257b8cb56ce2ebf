//! The key exchange: exchanging `SSH_MSG_KEXINIT`, choosing the algorithms,
//! verifying the server's public key, deriving the keys and taking them into
//! use with `SSH_MSG_NEWKEYS`. It runs once when the connection starts and
//! again whenever the keys have been in use for too long.
//!
//! The exchange advances by steps of [`pump_negotiate`]. Before a step the
//! driver asks [`wanted`] what the step needs from outside, gets it, and hands
//! it in as a [`Polled`]; what does not fit the state at which the exchange
//! stands is not looked at. What a step does is given by [`pumped`].

use crate::buf;
use crate::cipher::{
    CipherAlgo, CipherAlgoVariant, CipherKeys, CipherKeysView, MacKeys, MacKeysView, PacketKeys,
    PacketKeysView,
};
use crate::client::auth::is_authenticated;
use crate::client::client_event::{ClientEvent, Finished, KexOutcome};
use crate::client::client_state::{
    named, wakeup_client, ClientState, ClientStateView, NamedAlgo, EXT_INFO_C,
};
use crate::client::config::ClientConfigView;
use crate::client::pump::Pump;
use crate::codec::decode::{same_octets, PacketDecode, TRUNCATED};
use crate::codec::encode::{extend, str_names, PacketEncode};
use crate::codec::pipe::RecvPipeView;
use crate::codec::wire;
use crate::codec::CodecView;
use crate::codes::msg;
use crate::error::{result_view, AlgoNegotiateError, AlgoNegotiateErrorView, Error, ErrorView};
use crate::hash::HashAlgo;
use crate::kex::{KexAlgo, KexInput, KexOutput};
use crate::mac::{MacAlgo, MacAlgoVariant};
use crate::pubkey::{Pubkey, PubkeyAlgo, SignatureVerified};
use crate::random::random_cookie;
use vstd::pervasive::unreached;
use vstd::prelude::*;
use vstd::string::StringSliceAdditionalSpecFns;

verus! {

/// Where a key exchange stands.
#[derive(Debug, Clone, Copy, PartialEq, Eq, Structural)]
pub enum State {
    /// No key exchange is under way.
    Idle,
    /// The two sides exchange `SSH_MSG_KEXINIT`.
    KexInit,
    /// The algorithms are chosen and the exchange proper runs.
    Kex,
    /// The server's signature is verified; the application decides on the key.
    AcceptPubkey,
    /// The two sides exchange `SSH_MSG_NEWKEYS`.
    NewKeys,
    /// The new keys are in use in both directions.
    Done,
}

/// The `SSH_MSG_KEXINIT` that we sent.
pub struct OurKexInit {
    pub(crate) payload: bytes::Bytes,
    pub(crate) kex_algos: Vec<KexAlgo>,
    pub(crate) server_pubkey_algos: Vec<PubkeyAlgo>,
    pub(crate) cipher_algos_cts: Vec<CipherAlgo>,
    pub(crate) cipher_algos_stc: Vec<CipherAlgo>,
    pub(crate) mac_algos_cts: Vec<MacAlgo>,
    pub(crate) mac_algos_stc: Vec<MacAlgo>,
    pub(crate) packet_seq: u32,
}

/// What an [`OurKexInit`] holds.
pub struct OurKexInitView {
    /// The payload, octet by octet: the exchange hash covers it.
    pub payload: Seq<u8>,
    pub kex_algos: Seq<KexAlgo>,
    pub server_pubkey_algos: Seq<PubkeyAlgo>,
    pub cipher_algos_cts: Seq<CipherAlgo>,
    pub cipher_algos_stc: Seq<CipherAlgo>,
    pub mac_algos_cts: Seq<MacAlgo>,
    pub mac_algos_stc: Seq<MacAlgo>,
    /// The sequence number of the packet that carried it.
    pub packet_seq: u32,
}

impl View for OurKexInit {
    type V = OurKexInitView;

    open(crate) spec fn view(&self) -> OurKexInitView {
        OurKexInitView {
            payload: buf::contents(self.payload),
            kex_algos: self.kex_algos@,
            server_pubkey_algos: self.server_pubkey_algos@,
            cipher_algos_cts: self.cipher_algos_cts@,
            cipher_algos_stc: self.cipher_algos_stc@,
            mac_algos_cts: self.mac_algos_cts@,
            mac_algos_stc: self.mac_algos_stc@,
            packet_seq: self.packet_seq,
        }
    }
}

/// The `SSH_MSG_KEXINIT` that the peer sent.
#[derive(Debug)]
pub struct TheirKexInit {
    pub(crate) payload: bytes::Bytes,
    pub(crate) kex_algos: Vec<Vec<u8>>,
    pub(crate) server_pubkey_algos: Vec<Vec<u8>>,
    pub(crate) cipher_algos_cts: Vec<Vec<u8>>,
    pub(crate) cipher_algos_stc: Vec<Vec<u8>>,
    pub(crate) mac_algos_cts: Vec<Vec<u8>>,
    pub(crate) mac_algos_stc: Vec<Vec<u8>>,
}

/// What a [`TheirKexInit`] holds.
pub struct TheirKexInitView {
    /// The payload, octet by octet, message number included.
    pub payload: Seq<u8>,
    pub kex_algos: Seq<Seq<u8>>,
    pub server_pubkey_algos: Seq<Seq<u8>>,
    pub cipher_algos_cts: Seq<Seq<u8>>,
    pub cipher_algos_stc: Seq<Seq<u8>>,
    pub mac_algos_cts: Seq<Seq<u8>>,
    pub mac_algos_stc: Seq<Seq<u8>>,
}

impl View for TheirKexInit {
    type V = TheirKexInitView;

    open(crate) spec fn view(&self) -> TheirKexInitView {
        TheirKexInitView {
            payload: buf::contents(self.payload),
            kex_algos: wire::views(self.kex_algos@),
            server_pubkey_algos: wire::views(self.server_pubkey_algos@),
            cipher_algos_cts: wire::views(self.cipher_algos_cts@),
            cipher_algos_stc: wire::views(self.cipher_algos_stc@),
            mac_algos_cts: wire::views(self.mac_algos_cts@),
            mac_algos_stc: wire::views(self.mac_algos_stc@),
        }
    }
}

/// The algorithms that the two sides agreed on.
#[derive(Debug, Clone, Copy, PartialEq, Eq)]
pub struct Algos {
    pub kex: KexAlgo,
    pub server_pubkey: PubkeyAlgo,
    pub cipher_cts: CipherAlgo,
    pub cipher_stc: CipherAlgo,
    pub mac_cts: MacAlgo,
    pub mac_stc: MacAlgo,
}

/// The counters and the clock at the moment the last key exchange completed.
#[derive(Debug, Clone, Copy, PartialEq, Eq, Structural)]
pub struct LastKex {
    /// Whether a key exchange has completed at all.
    pub done: bool,
    /// The octets that had been received.
    pub recvd_bytes: u64,
    /// The octets that had been sent.
    pub sent_bytes: u64,
    /// The reading of the clock, in milliseconds.
    pub instant: u64,
}

/// What a [`KexOutput`] holds.
pub struct KexOutputView {
    pub shared_secret: Seq<u8>,
    pub exchange_hash: Seq<u8>,
    pub server_pubkey: Seq<u8>,
    pub server_exchange_hash_sign: Seq<u8>,
}

impl View for KexOutput {
    type V = KexOutputView;

    open spec fn view(&self) -> KexOutputView {
        KexOutputView {
            shared_secret: self.shared_secret@,
            exchange_hash: buf::contents(self.exchange_hash),
            server_pubkey: buf::contents(self.server_pubkey),
            server_exchange_hash_sign: buf::contents(self.server_exchange_hash_sign),
        }
    }
}

/// The state of the key exchange.
pub struct NegotiateState {
    pub(crate) state: State,
    pub(crate) our_kex_init: Option<OurKexInit>,
    pub(crate) their_kex_init: Option<TheirKexInit>,
    pub(crate) algos: Option<Algos>,
    pub(crate) kex: Option<KexAlgo>,
    pub(crate) kex_output: Option<KexOutput>,
    pub(crate) signature_verified: Option<SignatureVerified>,
    pub(crate) pubkey_event: Option<ClientEvent>,
    pub(crate) pubkey_accepted: bool,
    pub(crate) new_keys_sent: bool,
    pub(crate) new_keys_recvd: bool,
    pub(crate) done_txs: Vec<u64>,
}

/// What a [`NegotiateState`] holds.
pub struct NegotiateView {
    /// Where the key exchange stands.
    pub state: State,
    /// The `SSH_MSG_KEXINIT` that we sent, once we have.
    pub our_kex_init: Option<OurKexInitView>,
    /// The `SSH_MSG_KEXINIT` that the peer sent, once it has.
    pub their_kex_init: Option<TheirKexInitView>,
    /// The algorithms, once they are chosen.
    pub algos: Option<Algos>,
    /// The algorithm of the exchange that the driver runs, while it runs.
    pub kex: Option<KexAlgo>,
    /// The outcome of the exchange, once it has one.
    pub kex_output: Option<KexOutputView>,
    /// Whether the server's signature has been verified, and for what.
    pub signature_verified: Option<(crate::pubkey::PubkeyKind, Pubkey, Seq<u8>, Seq<u8>)>,
    /// The event that tells the application of the server's public key, until
    /// it is handed over.
    pub pubkey_event: Option<ClientEvent>,
    /// Whether the application has accepted the server's public key.
    pub pubkey_accepted: bool,
    /// Whether we have sent `SSH_MSG_NEWKEYS`.
    pub new_keys_sent: bool,
    /// Whether we have received `SSH_MSG_NEWKEYS`.
    pub new_keys_recvd: bool,
    /// Who waits for the exchange to end.
    pub done_txs: Seq<u64>,
}

/// The view of a value that may be absent.
pub open spec fn view_of<T: View>(x: Option<T>) -> Option<T::V> {
    match x {
        Some(x) => Some(x@),
        None => None,
    }
}

impl View for NegotiateState {
    type V = NegotiateView;

    open(crate) spec fn view(&self) -> NegotiateView {
        NegotiateView {
            state: self.state,
            our_kex_init: view_of(self.our_kex_init),
            their_kex_init: view_of(self.their_kex_init),
            algos: self.algos,
            kex: self.kex,
            kex_output: view_of(self.kex_output),
            signature_verified: match self.signature_verified {
                Some(witness) => Some(
                    (witness.kind(), witness.pubkey(), witness.message(), witness.signature()),
                ),
                None => None,
            },
            pubkey_event: self.pubkey_event,
            pubkey_accepted: self.pubkey_accepted,
            new_keys_sent: self.new_keys_sent,
            new_keys_recvd: self.new_keys_recvd,
            done_txs: self.done_txs@,
        }
    }
}

impl NegotiateView {
    /// No key exchange has left anything behind; the exchange stands at
    /// `state`.
    pub open spec fn fresh(state: State) -> NegotiateView {
        NegotiateView {
            state,
            our_kex_init: None,
            their_kex_init: None,
            algos: None,
            kex: None,
            kex_output: None,
            signature_verified: None,
            pubkey_event: None,
            pubkey_accepted: false,
            new_keys_sent: false,
            new_keys_recvd: false,
            done_txs: Seq::empty(),
        }
    }

    /// The algorithms are chosen.
    pub open spec fn has_algos(self) -> bool {
        &&& self.algos is Some
        &&& self.our_kex_init is Some
        &&& self.their_kex_init is Some
        &&& self.kex == Some(self.algos->0.kex)
    }

    /// The exchange has an outcome, and the server's signature of the exchange
    /// hash has been verified with the algorithm that was chosen.
    pub open spec fn has_output(self) -> bool {
        &&& self.has_algos()
        &&& self.kex_output matches Some(output)
        &&& output.shared_secret.len() < u32::MAX
        &&& self.signature_verified matches Some((kind, pubkey, message, signature))
        &&& kind == self.algos->0.server_pubkey.kind
        &&& message == output.exchange_hash
        &&& signature == output.server_exchange_hash_sign
    }

    /// What the parts of the state owe each other.
    pub open spec fn wf(self) -> bool {
        &&& match self.state {
            State::Idle | State::KexInit => {
                &&& self.algos is None
                &&& self.kex is None
                &&& self.kex_output is None
                &&& self.signature_verified is None
                &&& self.pubkey_event is None
                &&& !self.pubkey_accepted
                &&& !self.new_keys_sent
                &&& !self.new_keys_recvd
            },
            State::Kex => {
                &&& self.has_algos()
                &&& self.kex_output is None
                &&& self.signature_verified is None
                &&& self.pubkey_event is None
                &&& !self.pubkey_accepted
                &&& !self.new_keys_sent
                &&& !self.new_keys_recvd
            },
            State::AcceptPubkey => {
                &&& self.has_output()
                &&& !self.pubkey_accepted
                &&& !self.new_keys_sent
            },
            State::NewKeys => {
                &&& self.has_output()
                &&& self.pubkey_event is None
                &&& self.pubkey_accepted
            },
            State::Done => {
                &&& self.has_output()
                &&& self.pubkey_event is None
                &&& self.pubkey_accepted
                &&& self.new_keys_sent
                &&& self.new_keys_recvd
            },
        }
        &&& self.state == State::Idle ==> self.our_kex_init is None && self.their_kex_init is None
    }
}

/// The state in which the first key exchange starts: the client sends its
/// `SSH_MSG_KEXINIT` right away.
pub fn init_negotiate() -> (negotiate_st: NegotiateState)
    ensures
        negotiate_st@ == NegotiateView::fresh(State::KexInit),
{
    new_negotiate(State::KexInit)
}

/// A key exchange that stands at `state` and has nothing else yet.
pub fn new_negotiate(state: State) -> (negotiate_st: NegotiateState)
    ensures
        negotiate_st@ == NegotiateView::fresh(state),
{
    let negotiate_st = NegotiateState {
        state,
        our_kex_init: None,
        their_kex_init: None,
        algos: None,
        kex: None,
        kex_output: None,
        signature_verified: None,
        pubkey_event: None,
        pubkey_accepted: false,
        new_keys_sent: false,
        new_keys_recvd: false,
        done_txs: Vec::new(),
    };
    assert(negotiate_st@.done_txs =~= Seq::empty());
    negotiate_st
}

impl Default for State {
    fn default() -> (state: State)
        ensures
            state == State::Idle,
    {
        State::Idle
    }
}

/// The record of a client for which no key exchange has completed yet. `now`
/// is the reading of a monotonic clock, in milliseconds.
pub fn init_last_kex(now: u64) -> (last_kex: LastKex)
    ensures
        last_kex == (LastKex { done: false, recvd_bytes: 0, sent_bytes: 0, instant: now }),
{
    LastKex { done: false, recvd_bytes: 0, sent_bytes: 0, instant: now }
}

/// Whether no key exchange is under way, so that other packets may be sent.
pub fn is_ready(st: &ClientState) -> (ready: bool)
    ensures
        ready == (st@.negotiate.state == State::Idle),
{
    matches!(st.negotiate_st.state, State::Idle)
}

/// What [`start_kex`] makes of a state.
pub open spec fn started_kex(pre: ClientStateView, done_tx: Option<u64>) -> ClientStateView {
    let idle = pre.negotiate.state == State::Idle;
    ClientStateView {
        negotiate: NegotiateView {
            state: if idle {
                State::KexInit
            } else {
                pre.negotiate.state
            },
            done_txs: match done_tx {
                Some(waiter) => pre.negotiate.done_txs.push(waiter),
                None => pre.negotiate.done_txs,
            },
            ..pre.negotiate
        },
        wakeup: idle || pre.wakeup,
        ..pre
    }
}

/// Starts a key exchange unless one is under way. With `done_tx`, the one who
/// asks is told how the exchange ends, under this number.
pub fn start_kex(st: &mut ClientState, done_tx: Option<u64>)
    requires
        old(st)@.wf(),
    ensures
        final(st)@ == started_kex(old(st)@, done_tx),
        final(st)@.wf(),
        final(st)@.follows(old(st)@),
{
    if matches!(st.negotiate_st.state, State::Idle) {
        st.negotiate_st.state = State::KexInit;
        wakeup_client(st);
    }
    if let Some(done_tx) = done_tx {
        st.negotiate_st.done_txs.push(done_tx);
    }
}

/// The reason given when the operating system gives no random octets.
pub const NO_RANDOM: &'static str = "the source of randomness failed";

/// The name of the one compression that we support: none.
pub const NONE: &'static str = "none";

/// The payload of our `SSH_MSG_KEXINIT` (RFC 4253, section 7.1): the message
/// number, the cookie, our algorithms (the same in both directions; after the
/// key exchange algorithms the name that announces RFC 8308), no compression,
/// no languages, no guessed packet, and the reserved zero.
pub open spec fn kex_init_payload(cookie: Seq<u8>, config: ClientConfigView) -> Seq<u8> {
    seq![msg::KEXINIT] + cookie + wire::name_list(
        named(config.kex_algos).push(EXT_INFO_C.spec_bytes()),
    ) + wire::name_list(named(config.server_pubkey_algos)) + wire::name_list(
        named(config.cipher_algos),
    ) + wire::name_list(named(config.cipher_algos)) + wire::name_list(named(config.mac_algos))
        + wire::name_list(named(config.mac_algos)) + wire::name_list(seq![NONE.spec_bytes()])
        + wire::name_list(seq![NONE.spec_bytes()]) + wire::name_list(Seq::empty())
        + wire::name_list(Seq::empty()) + seq![0u8] + wire::u32_be(0)
}

/// What sending our `SSH_MSG_KEXINIT` with the cookie `cookie` makes of a
/// state, and the record of what was sent.
pub open spec fn sent_kex_init(pre: ClientStateView, cookie: Seq<u8>) -> (
    OurKexInitView,
    ClientStateView,
) {
    let payload = kex_init_payload(cookie, pre.config);
    (
        OurKexInitView {
            payload,
            kex_algos: pre.config.kex_algos,
            server_pubkey_algos: pre.config.server_pubkey_algos,
            cipher_algos_cts: pre.config.cipher_algos,
            cipher_algos_stc: pre.config.cipher_algos,
            mac_algos_cts: pre.config.mac_algos,
            mac_algos_stc: pre.config.mac_algos,
            packet_seq: pre.codec.send_pipe.packet_seq,
        },
        ClientStateView {
            codec: CodecView { send_pipe: pre.codec.send_pipe.fed(payload), ..pre.codec },
            ..pre
        },
    )
}

/// The names of `algos`.
pub fn get_algo_names<A: NamedAlgo>(algos: &Vec<A>) -> (names: Vec<&'static str>)
    ensures
        str_names(names@) == named(algos@),
{
    let mut names: Vec<&'static str> = Vec::new();
    let n: usize = algos.len();
    let mut i: usize = 0;
    while i < n
        invariant
            n == algos@.len(),
            i <= n,
            names@.len() == i,
            forall|j: int| 0 <= j < i ==> #[trigger] names@[j] == algos@[j].spec_name(),
        decreases n - i,
    {
        names.push(algos[i].name());
        i = i + 1;
    }
    assert(str_names(names@) =~= named(algos@));
    names
}

/// A copy of `algos`.
pub fn copy_algos<A: Copy>(algos: &Vec<A>) -> (copy: Vec<A>)
    ensures
        copy@ == algos@,
{
    let mut copy: Vec<A> = Vec::new();
    let n: usize = algos.len();
    let mut i: usize = 0;
    while i < n
        invariant
            n == algos@.len(),
            i <= n,
            copy@ == algos@.take(i as int),
        decreases n - i,
    {
        copy.push(algos[i]);
        i = i + 1;
        assert(algos@.take(i as int) =~= algos@.take(i - 1).push(algos@[i - 1]));
    }
    assert(algos@.take(n as int) =~= algos@);
    copy
}

/// Sends our `SSH_MSG_KEXINIT` with the given cookie.
pub fn send_kex_init_with(st: &mut ClientState, cookie: &[u8; 16]) -> (our_kex_init: OurKexInit)
    requires
        old(st)@.wf(),
    ensures
        (our_kex_init@, final(st)@) == sent_kex_init(old(st)@, cookie@),
        final(st)@.wf(),
        final(st)@.follows(old(st)@),
{
    // RFC 4253, section 7.1
    let mut payload = PacketEncode::new();
    payload.put_u8(msg::KEXINIT);
    payload.put_raw(cookie.as_slice());
    let mut kex_names: Vec<&'static str> = get_algo_names(&st.config.kex_algos);
    // RFC 8308
    kex_names.push(EXT_INFO_C);
    assert(str_names(kex_names@) =~= named(st@.config.kex_algos).push(EXT_INFO_C.spec_bytes()));
    payload.put_name_list(kex_names.as_slice());
    payload.put_name_list(get_algo_names(&st.config.server_pubkey_algos).as_slice());
    payload.put_name_list(get_algo_names(&st.config.cipher_algos).as_slice());
    payload.put_name_list(get_algo_names(&st.config.cipher_algos).as_slice());
    payload.put_name_list(get_algo_names(&st.config.mac_algos).as_slice());
    payload.put_name_list(get_algo_names(&st.config.mac_algos).as_slice());
    let mut none: Vec<&'static str> = Vec::new();
    none.push(NONE);
    let empty: Vec<&'static str> = Vec::new();
    proof {
        reveal_strlit("none");
        vstd::string::is_ascii_spec_bytes(NONE);
        assert(str_names(none@) =~= seq![NONE.spec_bytes()]);
        assert(str_names(empty@) =~= Seq::<Seq<u8>>::empty());
    }
    payload.put_name_list(none.as_slice());
    payload.put_name_list(none.as_slice());
    payload.put_name_list(empty.as_slice());
    payload.put_name_list(empty.as_slice());
    payload.put_bool(false);
    payload.put_u32(0);
    assert(payload@ =~= kex_init_payload(cookie@, st@.config));
    let payload: bytes::Bytes = payload.finish();
    let packet_seq: u32 = st.codec.send_pipe.feed_packet(buf::as_slice(&payload));

    OurKexInit {
        payload,
        kex_algos: copy_algos(&st.config.kex_algos),
        server_pubkey_algos: copy_algos(&st.config.server_pubkey_algos),
        cipher_algos_cts: copy_algos(&st.config.cipher_algos),
        cipher_algos_stc: copy_algos(&st.config.cipher_algos),
        mac_algos_cts: copy_algos(&st.config.mac_algos),
        mac_algos_stc: copy_algos(&st.config.mac_algos),
        packet_seq,
    }
}

/// Sends our `SSH_MSG_KEXINIT` with a cookie from the operating system's
/// source of randomness. Nothing is sent if the source fails.
pub fn send_kex_init(st: &mut ClientState) -> (r: Result<OurKexInit, Error>)
    requires
        old(st)@.wf(),
    ensures
        match r {
            Ok(our_kex_init) => exists|cookie: Seq<u8>|
                cookie.len() == 16 && (our_kex_init@, final(st)@) == #[trigger] sent_kex_init(
                    old(st)@,
                    cookie,
                ),
            Err(e) => e == Error::Crypto(NO_RANDOM) && final(st)@ == old(st)@,
        },
        final(st)@.wf(),
        final(st)@.follows(old(st)@),
{
    match random_cookie() {
        Some(cookie) => Ok(send_kex_init_with(st, &cookie)),
        None => Err(Error::Crypto(NO_RANDOM)),
    }
}

/// The reason given when `SSH_MSG_KEXINIT` announces a guessed packet.
pub const FIRST_KEX_PACKET_FOLLOWS: &'static str =
    "received SSH_MSG_KEXINIT with first_kex_packet_follows set";

/// The reason given when `SSH_MSG_KEXINIT` comes while a key exchange runs.
pub const KEXINIT_DURING_NEGOTIATION: &'static str = "received SSH_MSG_KEXINIT during negotiation";

/// The reason given when `SSH_MSG_KEXINIT` comes before the peer has
/// identified itself.
pub const KEXINIT_BEFORE_IDENT: &'static str =
    "received SSH_MSG_KEXINIT before the identification string";

/// Reads `n` name-lists from the front of `s`: the lists and what follows
/// them.
pub open spec fn parse_name_lists(s: Seq<u8>, n: nat) -> Option<(Seq<Seq<Seq<u8>>>, Seq<u8>)>
    decreases n,
{
    if n == 0 {
        Some((Seq::empty(), s))
    } else {
        match parse_name_lists(s, (n - 1) as nat) {
            None => None,
            Some((lists, rest)) => match wire::parse_name_list(rest) {
                None => None,
                Some((list, rest)) => Some((lists.push(list), rest)),
            },
        }
    }
}

/// What the body of an `SSH_MSG_KEXINIT` (all that follows the message
/// number) holds: the cookie, ten name-lists, the flag for a guessed packet
/// and the reserved number. Gives the ten lists, the flag and what follows.
pub open spec fn parse_kex_init(body: Seq<u8>) -> Option<(Seq<Seq<Seq<u8>>>, bool, Seq<u8>)> {
    match wire::parse_raw(body, 16) {
        None => None,
        Some((_, rest)) => match parse_name_lists(rest, 10) {
            None => None,
            Some((lists, rest)) => match wire::parse_bool(rest) {
                None => None,
                Some((follows, rest)) => match wire::parse_u32(rest) {
                    None => None,
                    Some((_, rest)) => Some((lists, follows, rest)),
                },
            },
        },
    }
}

/// What receiving an `SSH_MSG_KEXINIT` makes of a state. `original` is the
/// whole payload and `body` what follows the message number.
pub open spec fn received_kex_init(pre: ClientStateView, original: Seq<u8>, body: Seq<u8>) -> Result<
    ClientStateView,
    ErrorView,
> {
    match parse_kex_init(body) {
        None => Err(ErrorView::Decode(TRUNCATED)),
        Some((lists, follows, _)) => if follows {
            Err(ErrorView::Protocol(FIRST_KEX_PACKET_FOLLOWS))
        } else if pre.their_ident is None {
            Err(ErrorView::Protocol(KEXINIT_BEFORE_IDENT))
        } else if (pre.negotiate.state == State::Idle || pre.negotiate.state == State::KexInit)
            && pre.negotiate.their_kex_init is None {
            Ok(
                ClientStateView {
                    negotiate: NegotiateView {
                        state: State::KexInit,
                        their_kex_init: Some(
                            TheirKexInitView {
                                payload: original,
                                kex_algos: lists[0],
                                server_pubkey_algos: lists[1],
                                cipher_algos_cts: lists[2],
                                cipher_algos_stc: lists[3],
                                mac_algos_cts: lists[4],
                                mac_algos_stc: lists[5],
                            },
                        ),
                        ..pre.negotiate
                    },
                    ..pre
                },
            )
        } else {
            Err(ErrorView::Protocol(KEXINIT_DURING_NEGOTIATION))
        },
    }
}

/// Every name of `algos` is a name: it is not empty and holds no comma.
pub open spec fn has_names<A: NamedAlgo>(algos: Seq<A>) -> bool {
    forall|i: int| 0 <= i < algos.len() ==> wire::is_name(#[trigger] named(algos)[i])
}

/// The ten name-lists of our `SSH_MSG_KEXINIT`.
pub open spec fn our_name_lists(config: ClientConfigView) -> Seq<Seq<Seq<u8>>> {
    seq![
        named(config.kex_algos).push(EXT_INFO_C.spec_bytes()),
        named(config.server_pubkey_algos),
        named(config.cipher_algos),
        named(config.cipher_algos),
        named(config.mac_algos),
        named(config.mac_algos),
        seq![NONE.spec_bytes()],
        seq![NONE.spec_bytes()],
        Seq::empty(),
        Seq::empty(),
    ]
}

/// What follows the first `k` name-lists in our `SSH_MSG_KEXINIT`.
pub open spec fn after_name_lists(config: ClientConfigView, k: int) -> Seq<u8>
    decreases 10 - k,
{
    if k < 0 || k >= 10 {
        seq![0u8] + wire::u32_be(0)
    } else {
        wire::name_list(our_name_lists(config)[k]) + after_name_lists(config, k + 1)
    }
}

/// One who reads as we do reads our `SSH_MSG_KEXINIT` as we wrote it: the
/// payload begins with the message number, and what follows gives our ten
/// lists of names, no guessed packet, and nothing more.
pub proof fn lemma_kex_init_round_trip(cookie: Seq<u8>, config: ClientConfigView)
    requires
        cookie.len() == 16,
        config.fits_wire(),
        has_names(config.kex_algos),
        has_names(config.server_pubkey_algos),
        has_names(config.cipher_algos),
        has_names(config.mac_algos),
    ensures
        kex_init_payload(cookie, config)[0] == msg::KEXINIT,
        parse_kex_init(kex_init_payload(cookie, config).skip(1)) == Some(
            (our_name_lists(config), false, Seq::<u8>::empty()),
        ),
{
    let lists = our_name_lists(config);
    let payload = kex_init_payload(cookie, config);
    let body = payload.skip(1);
    lemma_kex_init_payload(cookie, config);
    assert(body =~= cookie + after_name_lists(config, 0));
    assert(body.take(16) =~= cookie);
    assert(body.skip(16) =~= after_name_lists(config, 0));

    reveal_strlit("ext-info-c");
    reveal_strlit("none");
    vstd::string::is_ascii_spec_bytes(EXT_INFO_C);
    vstd::string::is_ascii_spec_bytes(NONE);
    assert(wire::is_name(EXT_INFO_C.spec_bytes()));
    assert(wire::is_name(NONE.spec_bytes()));
    assert forall|k: int, i: int| 0 <= k < 10 && 0 <= i < lists[k].len() implies wire::is_name(
        #[trigger] lists[k][i],
    ) by {
        if k == 0 && i < named(config.kex_algos).len() {
            assert(lists[k][i] == named(config.kex_algos)[i]);
        } else if k == 1 {
            assert(lists[k][i] == named(config.server_pubkey_algos)[i]);
        } else if k == 2 || k == 3 {
            assert(lists[k][i] == named(config.cipher_algos)[i]);
        } else if k == 4 || k == 5 {
            assert(lists[k][i] == named(config.mac_algos)[i]);
        }
    }
    assert forall|k: int| 0 <= k < 10 implies wire::join(#[trigger] lists[k]).len()
        <= u32::MAX by {
        if k == 6 || k == 7 {
            assert(wire::join(lists[k]) == NONE.spec_bytes());
        }
    }
    lemma_our_name_lists_are_read(config, 10);
    wire::lemma_parse_u32(0, Seq::empty());
    assert(after_name_lists(config, 10) =~= seq![0u8] + (wire::u32_be(0) + Seq::<u8>::empty()));
    assert(after_name_lists(config, 10).skip(1) =~= wire::u32_be(0) + Seq::<u8>::empty());
    assert(lists.take(10) =~= lists);
}

/// Joining three sequences does not depend on which two are joined first.
pub proof fn lemma_join_three(a: Seq<u8>, b: Seq<u8>, c: Seq<u8>)
    ensures
        (a + b) + c == a + (b + c),
{
    assert((a + b) + c =~= a + (b + c));
}

/// Our `SSH_MSG_KEXINIT` is the message number, the cookie, and what follows
/// the cookie.
pub proof fn lemma_kex_init_payload(cookie: Seq<u8>, config: ClientConfigView)
    ensures
        kex_init_payload(cookie, config) == seq![msg::KEXINIT] + (cookie + after_name_lists(
            config,
            0,
        )),
{
    let lists = our_name_lists(config);
    let p0 = seq![msg::KEXINIT] + cookie;
    let p1 = p0 + wire::name_list(lists[0]);
    let p2 = p1 + wire::name_list(lists[1]);
    let p3 = p2 + wire::name_list(lists[2]);
    let p4 = p3 + wire::name_list(lists[3]);
    let p5 = p4 + wire::name_list(lists[4]);
    let p6 = p5 + wire::name_list(lists[5]);
    let p7 = p6 + wire::name_list(lists[6]);
    let p8 = p7 + wire::name_list(lists[7]);
    let p9 = p8 + wire::name_list(lists[8]);
    let p10 = p9 + wire::name_list(lists[9]);
    assert(kex_init_payload(cookie, config) == p10 + seq![0u8] + wire::u32_be(0));
    assert(after_name_lists(config, 10) == seq![0u8] + wire::u32_be(0));
    lemma_join_three(p10, seq![0u8], wire::u32_be(0));
    assert(after_name_lists(config, 9) == wire::name_list(lists[9]) + after_name_lists(config, 10));
    lemma_join_three(p9, wire::name_list(lists[9]), after_name_lists(config, 10));
    assert(after_name_lists(config, 8) == wire::name_list(lists[8]) + after_name_lists(config, 9));
    lemma_join_three(p8, wire::name_list(lists[8]), after_name_lists(config, 9));
    assert(after_name_lists(config, 7) == wire::name_list(lists[7]) + after_name_lists(config, 8));
    lemma_join_three(p7, wire::name_list(lists[7]), after_name_lists(config, 8));
    assert(after_name_lists(config, 6) == wire::name_list(lists[6]) + after_name_lists(config, 7));
    lemma_join_three(p6, wire::name_list(lists[6]), after_name_lists(config, 7));
    assert(after_name_lists(config, 5) == wire::name_list(lists[5]) + after_name_lists(config, 6));
    lemma_join_three(p5, wire::name_list(lists[5]), after_name_lists(config, 6));
    assert(after_name_lists(config, 4) == wire::name_list(lists[4]) + after_name_lists(config, 5));
    lemma_join_three(p4, wire::name_list(lists[4]), after_name_lists(config, 5));
    assert(after_name_lists(config, 3) == wire::name_list(lists[3]) + after_name_lists(config, 4));
    lemma_join_three(p3, wire::name_list(lists[3]), after_name_lists(config, 4));
    assert(after_name_lists(config, 2) == wire::name_list(lists[2]) + after_name_lists(config, 3));
    lemma_join_three(p2, wire::name_list(lists[2]), after_name_lists(config, 3));
    assert(after_name_lists(config, 1) == wire::name_list(lists[1]) + after_name_lists(config, 2));
    lemma_join_three(p1, wire::name_list(lists[1]), after_name_lists(config, 2));
    assert(after_name_lists(config, 0) == wire::name_list(lists[0]) + after_name_lists(config, 1));
    lemma_join_three(p0, wire::name_list(lists[0]), after_name_lists(config, 1));
    lemma_join_three(seq![msg::KEXINIT], cookie, after_name_lists(config, 0));
}

/// The first `k` of our name-lists are read as we wrote them.
pub proof fn lemma_our_name_lists_are_read(config: ClientConfigView, k: nat)
    requires
        k <= 10,
        forall|j: int, i: int|
            0 <= j < 10 && 0 <= i < our_name_lists(config)[j].len() ==> wire::is_name(
                #[trigger] our_name_lists(config)[j][i],
            ),
        forall|j: int| 0 <= j < 10 ==> wire::join(#[trigger] our_name_lists(config)[j]).len()
            <= u32::MAX,
    ensures
        parse_name_lists(after_name_lists(config, 0), k) == Some(
            (our_name_lists(config).take(k as int), after_name_lists(config, k as int)),
        ),
    decreases k,
{
    let lists = our_name_lists(config);
    if k == 0 {
        assert(lists.take(0) =~= Seq::<Seq<Seq<u8>>>::empty());
    } else {
        lemma_our_name_lists_are_read(config, (k - 1) as nat);
        let list = lists[k - 1];
        assert forall|i: int| 0 <= i < list.len() implies wire::is_name(#[trigger] list[i]) by {
            assert(wire::is_name(lists[k - 1][i]));
        }
        wire::lemma_parse_name_list(list, after_name_lists(config, k as int));
        assert(lists.take(k as int) =~= lists.take(k - 1).push(list));
    }
}

/// Where some name-lists cannot be read, more cannot be read either.
pub proof fn lemma_name_lists_stop(s: Seq<u8>, k: nat, n: nat)
    requires
        k <= n,
        parse_name_lists(s, k) is None,
    ensures
        parse_name_lists(s, n) is None,
    decreases n - k,
{
    if k < n {
        lemma_name_lists_stop(s, k + 1, n);
    }
}

/// Reads the body of an `SSH_MSG_KEXINIT`. On failure nothing is read.
pub fn read_kex_init(payload: &mut PacketDecode) -> (r: Result<(Vec<Vec<Vec<u8>>>, bool), Error>)
    ensures
        final(payload).original() == old(payload).original(),
        match parse_kex_init(old(payload).remaining()) {
            Some((lists, follows, rest)) => r matches Ok((read, flag)) && read@.len() == 10
                && (forall|i: int| 0 <= i < 10 ==> wire::views(#[trigger] read@[i]@) == lists[i])
                && flag == follows && final(payload).remaining() == rest,
            None => r matches Err(e) && e == Error::Decode(TRUNCATED)
                && final(payload).remaining() == old(payload).remaining(),
        },
{
    payload.remaining_is_tail();
    let start: usize = payload.consumed();
    let ghost body = payload.remaining();
    // cookie
    match payload.skip(16) {
        Ok(()) => {},
        Err(e) => {
            return Err(e);
        },
    }
    let mut lists: Vec<Vec<Vec<u8>>> = Vec::new();
    let ghost after_cookie = payload.remaining();
    let mut i: usize = 0;
    while i < 10
        invariant
            i <= 10,
            payload.original() == old(payload).original(),
            start <= payload.original().len(),
            old(payload).remaining() == payload.original().skip(start as int),
            wire::parse_raw(old(payload).remaining(), 16) == Some(
                (old(payload).remaining().take(16), after_cookie),
            ),
            lists@.len() == i,
            parse_name_lists(after_cookie, i as nat) matches Some((read, rest)) && rest
                == payload.remaining() && read.len() == i && (forall|j: int|
                0 <= j < i ==> wire::views(#[trigger] lists@[j]@) == read[j]),
        decreases 10 - i,
    {
        match payload.get_name_list() {
            Ok(list) => {
                lists.push(list);
            },
            Err(e) => {
                proof {
                    lemma_name_lists_stop(after_cookie, i as nat + 1, 10);
                }
                payload.rewind(start);
                return Err(e);
            },
        }
        i = i + 1;
    }
    let first_kex_packet_follows: bool = match payload.get_bool() {
        Ok(flag) => flag,
        Err(e) => {
            payload.rewind(start);
            return Err(e);
        },
    };
    // reserved
    match payload.get_u32() {
        Ok(_) => {},
        Err(e) => {
            payload.rewind(start);
            return Err(e);
        },
    }
    Ok((lists, first_kex_packet_follows))
}

/// Takes the peer's `SSH_MSG_KEXINIT`, whose message number has been read from
/// `payload` already. On failure nothing is read and the state stays as it is.
pub fn recv_kex_init(st: &mut ClientState, payload: &mut PacketDecode) -> (r: Result<(), Error>)
    requires
        old(st)@.wf(),
    ensures
        final(payload).original() == old(payload).original(),
        match received_kex_init(
            old(st)@,
            old(payload).original(),
            old(payload).remaining(),
        ) {
            Ok(post) => {
                &&& r is Ok
                &&& final(st)@ == post
                &&& parse_kex_init(old(payload).remaining()) matches Some((_, _, rest))
                &&& final(payload).remaining() == rest
            },
            Err(e) => r matches Err(err) && err@ == e && final(st)@ == old(st)@
                && final(payload).remaining() == old(payload).remaining(),
        },
        final(st)@.wf(),
        final(st)@.follows(old(st)@),
{
    payload.remaining_is_tail();
    let start: usize = payload.consumed();
    // RFC 4253, section 7.1
    let (mut lists, first_kex_packet_follows) = match read_kex_init(payload) {
        Ok(read) => read,
        Err(e) => {
            return Err(e);
        },
    };
    let ghost read = lists@;

    if first_kex_packet_follows {
        payload.rewind(start);
        return Err(Error::Protocol(FIRST_KEX_PACKET_FOLLOWS));
    }
    if st.their_ident.is_none() {
        payload.rewind(start);
        return Err(Error::Protocol(KEXINIT_BEFORE_IDENT));
    }
    // the compression algorithms and the languages are not looked at
    lists.truncate(6);
    let mac_algos_stc: Vec<Vec<u8>> = lists.pop().unwrap();
    let mac_algos_cts: Vec<Vec<u8>> = lists.pop().unwrap();
    let cipher_algos_stc: Vec<Vec<u8>> = lists.pop().unwrap();
    let cipher_algos_cts: Vec<Vec<u8>> = lists.pop().unwrap();
    let server_pubkey_algos: Vec<Vec<u8>> = lists.pop().unwrap();
    let kex_algos: Vec<Vec<u8>> = lists.pop().unwrap();
    proof {
        assert(kex_algos == read[0] && server_pubkey_algos == read[1] && cipher_algos_cts
            == read[2] && cipher_algos_stc == read[3] && mac_algos_cts == read[4]
            && mac_algos_stc == read[5]);
    }

    let kex_init = TheirKexInit {
        payload: buf::copy_from_slice(payload.as_original_bytes()),
        kex_algos,
        server_pubkey_algos,
        cipher_algos_cts,
        cipher_algos_stc,
        mac_algos_cts,
        mac_algos_stc,
    };

    let expected: bool = matches!(st.negotiate_st.state, State::Idle | State::KexInit);
    if expected && st.negotiate_st.their_kex_init.is_none() {
        st.negotiate_st.their_kex_init = Some(kex_init);
        st.negotiate_st.state = State::KexInit;
        Ok(())
    } else {
        payload.rewind(start);
        Err(Error::Protocol(KEXINIT_DURING_NEGOTIATION))
    }
}

/// The kinds of algorithms, as an error names them.
pub const KIND_KEX: &'static str = "key exchange";

pub const KIND_SERVER_PUBKEY: &'static str = "server public key";

pub const KIND_CIPHER_CTS: &'static str = "cipher client-to-server";

pub const KIND_CIPHER_STC: &'static str = "cipher server-to-client";

pub const KIND_MAC_CTS: &'static str = "mac client-to-server";

pub const KIND_MAC_STC: &'static str = "mac server-to-client";

/// The place of the first of our names, from `from` on, that is among
/// theirs.
pub open spec fn first_common(ours: Seq<Seq<u8>>, theirs: Seq<Seq<u8>>, from: int) -> Option<int>
    decreases ours.len() - from,
{
    if from < 0 || from >= ours.len() {
        None
    } else if theirs.contains(ours[from]) {
        Some(from)
    } else {
        first_common(ours, theirs, from + 1)
    }
}

/// The algorithm that is chosen from ours and theirs (RFC 4253, section 7.1):
/// the first of ours whose name the peer offers too. Where there is none, the
/// error names the kind and holds both lists.
pub open spec fn negotiated_algo<A: NamedAlgo>(
    ours: Seq<A>,
    theirs: Seq<Seq<u8>>,
    kind: &'static str,
) -> Result<A, ErrorView> {
    match first_common(named(ours), theirs, 0) {
        Some(i) => Ok(ours[i]),
        None => Err(
            ErrorView::AlgoNegotiate(
                AlgoNegotiateErrorView {
                    algo_name: kind,
                    our_algos: named(ours),
                    their_algos: theirs,
                },
            ),
        ),
    }
}

/// The MAC that is chosen for a direction with the cipher `cipher`: none
/// where the cipher authenticates by itself.
pub open spec fn negotiated_mac_algo(
    cipher: CipherAlgo,
    ours: Seq<MacAlgo>,
    theirs: Seq<Seq<u8>>,
    kind: &'static str,
) -> Result<MacAlgo, ErrorView> {
    if cipher.variant.is_aead() {
        Ok(crate::mac::invalid())
    } else {
        negotiated_algo(ours, theirs, kind)
    }
}

/// The algorithms that are chosen from the two `SSH_MSG_KEXINIT`, or the error
/// for the first kind of which there is none.
pub open spec fn negotiated_algos(our: OurKexInitView, their: TheirKexInitView) -> Result<
    Algos,
    ErrorView,
> {
    match negotiated_algo(our.kex_algos, their.kex_algos, KIND_KEX) {
        Err(e) => Err(e),
        Ok(kex) => match negotiated_algo(
            our.server_pubkey_algos,
            their.server_pubkey_algos,
            KIND_SERVER_PUBKEY,
        ) {
            Err(e) => Err(e),
            Ok(server_pubkey) => match negotiated_algo(
                our.cipher_algos_cts,
                their.cipher_algos_cts,
                KIND_CIPHER_CTS,
            ) {
                Err(e) => Err(e),
                Ok(cipher_cts) => match negotiated_algo(
                    our.cipher_algos_stc,
                    their.cipher_algos_stc,
                    KIND_CIPHER_STC,
                ) {
                    Err(e) => Err(e),
                    Ok(cipher_stc) => match negotiated_mac_algo(
                        cipher_cts,
                        our.mac_algos_cts,
                        their.mac_algos_cts,
                        KIND_MAC_CTS,
                    ) {
                        Err(e) => Err(e),
                        Ok(mac_cts) => match negotiated_mac_algo(
                            cipher_stc,
                            our.mac_algos_stc,
                            their.mac_algos_stc,
                            KIND_MAC_STC,
                        ) {
                            Err(e) => Err(e),
                            Ok(mac_stc) => Ok(
                                Algos {
                                    kex,
                                    server_pubkey,
                                    cipher_cts,
                                    cipher_stc,
                                    mac_cts,
                                    mac_stc,
                                },
                            ),
                        },
                    },
                },
            },
        },
    }
}

/// Whether `name` is one of `names`.
pub fn contains_name(names: &Vec<Vec<u8>>, name: &[u8]) -> (found: bool)
    ensures
        found == wire::views(names@).contains(name@),
{
    let n: usize = names.len();
    let mut i: usize = 0;
    while i < n
        invariant
            n == names@.len(),
            i <= n,
            forall|j: int| 0 <= j < i ==> wire::views(names@)[j] != name@,
        decreases n - i,
    {
        if same_octets(names[i].as_slice(), name) {
            assert(wire::views(names@)[i as int] == name@);
            return true;
        }
        i = i + 1;
    }
    false
}

/// The names of `algos` as they go on the wire.
pub fn algo_names<A: NamedAlgo>(algos: &Vec<A>) -> (names: Vec<Vec<u8>>)
    ensures
        wire::views(names@) == named(algos@),
{
    let mut names: Vec<Vec<u8>> = Vec::new();
    let n: usize = algos.len();
    let mut i: usize = 0;
    while i < n
        invariant
            n == algos@.len(),
            i <= n,
            names@.len() == i,
            forall|j: int| 0 <= j < i ==> (#[trigger] names@[j])@ == named(algos@)[j],
        decreases n - i,
    {
        let mut name: Vec<u8> = Vec::new();
        extend(&mut name, algos[i].name().as_bytes());
        names.push(name);
        i = i + 1;
    }
    assert(wire::views(names@) =~= named(algos@));
    names
}

/// A copy of `names`.
pub fn clone_names(names: &Vec<Vec<u8>>) -> (copy: Vec<Vec<u8>>)
    ensures
        wire::views(copy@) == wire::views(names@),
{
    let mut copy: Vec<Vec<u8>> = Vec::new();
    let n: usize = names.len();
    let mut i: usize = 0;
    while i < n
        invariant
            n == names@.len(),
            i <= n,
            copy@.len() == i,
            forall|j: int| 0 <= j < i ==> (#[trigger] copy@[j])@ == names@[j]@,
        decreases n - i,
    {
        let mut name: Vec<u8> = Vec::new();
        extend(&mut name, names[i].as_slice());
        copy.push(name);
        i = i + 1;
    }
    assert(wire::views(copy@) =~= wire::views(names@));
    copy
}

/// Chooses the algorithm of one kind: the first of ours that the peer offers
/// too.
pub fn negotiate_algo<A: NamedAlgo>(
    our_algos: &Vec<A>,
    their_algos: &Vec<Vec<u8>>,
    name: &'static str,
) -> (r: Result<A, Error>)
    ensures
        result_view(r) == negotiated_algo(our_algos@, wire::views(their_algos@), name),
{
    let ghost ours = named(our_algos@);
    let ghost theirs = wire::views(their_algos@);
    let n: usize = our_algos.len();
    let mut i: usize = 0;
    while i < n
        invariant
            n == our_algos@.len(),
            i <= n,
            ours == named(our_algos@),
            theirs == wire::views(their_algos@),
            first_common(ours, theirs, 0) == first_common(ours, theirs, i as int),
        decreases n - i,
    {
        let our_algo: A = our_algos[i];
        if contains_name(their_algos, our_algo.name().as_bytes()) {
            return Ok(our_algo);
        }
        i = i + 1;
    }
    Err(
        Error::AlgoNegotiate(
            AlgoNegotiateError {
                algo_name: name,
                our_algos: algo_names(our_algos),
                their_algos: clone_names(their_algos),
            },
        ),
    )
}

/// Chooses the MAC of one direction: none where the cipher authenticates by
/// itself.
pub fn negotiate_mac_algo(
    cipher_algo: &CipherAlgo,
    our_algos: &Vec<MacAlgo>,
    their_algos: &Vec<Vec<u8>>,
    name: &'static str,
) -> (r: Result<MacAlgo, Error>)
    ensures
        result_view(r) == negotiated_mac_algo(
            *cipher_algo,
            our_algos@,
            wire::views(their_algos@),
            name,
        ),
{
    if cipher_algo.variant.is_aead() {
        Ok(crate::mac::invalid())
    } else {
        negotiate_algo(our_algos, their_algos, name)
    }
}

/// Chooses the algorithms from the two `SSH_MSG_KEXINIT`.
pub fn negotiate_algos_from(our: &OurKexInit, their: &TheirKexInit) -> (r: Result<Algos, Error>)
    ensures
        result_view(r) == negotiated_algos(our@, their@),
{
    let kex = negotiate_algo(&our.kex_algos, &their.kex_algos, KIND_KEX)?;
    let server_pubkey = negotiate_algo(
        &our.server_pubkey_algos,
        &their.server_pubkey_algos,
        KIND_SERVER_PUBKEY,
    )?;

    let cipher_cts = negotiate_algo(
        &our.cipher_algos_cts,
        &their.cipher_algos_cts,
        KIND_CIPHER_CTS,
    )?;
    let cipher_stc = negotiate_algo(
        &our.cipher_algos_stc,
        &their.cipher_algos_stc,
        KIND_CIPHER_STC,
    )?;

    let mac_cts = negotiate_mac_algo(
        &cipher_cts,
        &our.mac_algos_cts,
        &their.mac_algos_cts,
        KIND_MAC_CTS,
    )?;
    let mac_stc = negotiate_mac_algo(
        &cipher_stc,
        &our.mac_algos_stc,
        &their.mac_algos_stc,
        KIND_MAC_STC,
    )?;

    Ok(Algos { kex, server_pubkey, cipher_cts, cipher_stc, mac_cts, mac_stc })
}

/// Chooses the algorithms of the key exchange that is under way.
pub fn negotiate_algos(st: &ClientState) -> (r: Result<Algos, Error>)
    requires
        st@.negotiate.our_kex_init is Some,
        st@.negotiate.their_kex_init is Some,
    ensures
        result_view(r) == negotiated_algos(
            st@.negotiate.our_kex_init->0,
            st@.negotiate.their_kex_init->0,
        ),
{
    match (&st.negotiate_st.our_kex_init, &st.negotiate_st.their_kex_init) {
        (Some(our), Some(their)) => negotiate_algos_from(our, their),
        _ => unreached(),
    }
}

/// How many times the key material has to be extended by one more digest of
/// `block` octets until there are `key_len` octets of it.
pub open spec fn extensions(key_len: nat, block: nat) -> nat
    decreases key_len,
    when block > 0
{
    if key_len <= block {
        0
    } else {
        1 + extensions((key_len - block) as nat, block)
    }
}

/// The key material after `n` extensions: K1, K2 up to K(n+1) of RFC 4253,
/// section 7.2, one after the other. `prefix` is K followed by H, and `first`
/// is K1.
pub open spec fn key_material(hash: HashAlgo, prefix: Seq<u8>, first: Seq<u8>, n: nat) -> Seq<u8>
    decreases n,
{
    if n == 0 {
        first
    } else {
        let before = key_material(hash, prefix, first, (n - 1) as nat);
        before + hash.digest(prefix + before)
    }
}

/// The key of the kind `key_type` (a letter from `A` to `F`) and of `key_len`
/// octets that follows from the shared secret, the exchange hash and the
/// session identifier: the first `key_len` octets of the key material
/// HASH(K || H || X || session_id), extended as often as needed by
/// HASH(K || H || material so far).
pub open spec fn derived_key(
    hash: HashAlgo,
    shared_secret: Seq<u8>,
    exchange_hash: Seq<u8>,
    session_id: Seq<u8>,
    key_type: u8,
    key_len: nat,
) -> Seq<u8> {
    let prefix = wire::mpint(shared_secret) + exchange_hash;
    let first = hash.digest(prefix + seq![key_type] + session_id);
    key_material(hash, prefix, first, extensions(key_len, hash.output_len())).take(
        key_len as int,
    )
}

/// Derives a key from the outcome of a key exchange (RFC 4253, section 7.2).
/// `shared_secret` is the magnitude of K, most significant octet first.
pub fn derive_key_from(
    hash: HashAlgo,
    shared_secret: &[u8],
    exchange_hash: &[u8],
    session_id: &[u8],
    key_type: u8,
    key_len: usize,
) -> (key: Vec<u8>)
    requires
        shared_secret@.len() < u32::MAX,
    ensures
        key@ == derived_key(
            hash,
            shared_secret@,
            exchange_hash@,
            session_id@,
            key_type,
            key_len as nat,
        ),
        key@.len() == key_len,
{
    let mut to_hash_prefix = PacketEncode::new();
    to_hash_prefix.put_biguint(shared_secret);
    to_hash_prefix.put_raw(exchange_hash);
    let ghost prefix = wire::mpint(shared_secret@) + exchange_hash@;
    assert(to_hash_prefix@ =~= prefix);

    let mut to_hash = PacketEncode::new();
    to_hash.put_raw(to_hash_prefix.as_bytes());
    to_hash.put_u8(key_type);
    to_hash.put_raw(session_id);
    assert(to_hash@ =~= prefix + seq![key_type] + session_id@);
    let mut key: Vec<u8> = hash.compute_hash(to_hash.as_bytes());
    let ghost first = key@;

    let ghost block = hash.output_len();
    let ghost mut n: nat = 0;
    let ghost mut covered: nat = 0;
    while key.len() < key_len
        invariant
            block == hash.output_len(),
            block > 0,
            to_hash_prefix@ == prefix,
            key@ == key_material(hash, prefix, first, n),
            key@.len() == covered + block,
            covered <= key_len,
            extensions(key_len as nat, block) == n + extensions((key_len - covered) as nat, block),
        decreases key_len - covered,
    {
        let mut to_hash = PacketEncode::new();
        to_hash.put_raw(to_hash_prefix.as_bytes());
        to_hash.put_raw(key.as_slice());
        assert(to_hash@ =~= prefix + key@);
        let digest: Vec<u8> = hash.compute_hash(to_hash.as_bytes());
        crate::codec::encode::extend(&mut key, digest.as_slice());
        proof {
            n = n + 1;
            covered = covered + block;
        }
    }
    key.truncate(key_len);
    assert(key@ =~= key_material(hash, prefix, first, n).take(key_len as int));
    key
}

/// Derives a key from the outcome of the key exchange that is under way.
pub fn derive_key(st: &ClientState, key_type: u8, key_len: usize) -> (key: Vec<u8>)
    requires
        st@.wf(),
        st@.negotiate.has_output(),
    ensures
        key@ == derived_key(
            st@.negotiate.kex->0.hash,
            st@.negotiate.kex_output->0.shared_secret,
            st@.negotiate.kex_output->0.exchange_hash,
            st@.session_id->0,
            key_type,
            key_len as nat,
        ),
        key@.len() == key_len,
{
    match (&st.negotiate_st.kex, &st.negotiate_st.kex_output, &st.session_id) {
        (Some(kex), Some(kex_output), Some(session_id)) => derive_key_from(
            kex.hash,
            kex_output.shared_secret.as_slice(),
            buf::as_slice(&kex_output.exchange_hash),
            buf::as_slice(session_id),
            key_type,
            key_len,
        ),
        _ => unreached(),
    }
}

/// The key letters of one direction (RFC 4253, section 7.2).
#[derive(Debug, Clone, Copy, PartialEq, Eq, Structural)]
pub struct KeyLetters {
    /// The letter of the initialization vector.
    pub iv: u8,
    /// The letter of the encryption key.
    pub key: u8,
    /// The letter of the integrity key.
    pub mac: u8,
}

/// The letters of the direction from client to server: `A`, `C` and `E`.
pub open spec fn spec_letters_cts() -> KeyLetters {
    KeyLetters { iv: 0x41, key: 0x43, mac: 0x45 }
}

/// The letters of the direction from client to server: `A`, `C` and `E`.
#[verifier::when_used_as_spec(spec_letters_cts)]
pub fn letters_cts() -> (letters: KeyLetters)
    ensures
        letters == spec_letters_cts(),
{
    KeyLetters { iv: 0x41, key: 0x43, mac: 0x45 }
}

/// The letters of the direction from server to client: `B`, `D` and `F`.
pub open spec fn spec_letters_stc() -> KeyLetters {
    KeyLetters { iv: 0x42, key: 0x44, mac: 0x46 }
}

/// The letters of the direction from server to client: `B`, `D` and `F`.
#[verifier::when_used_as_spec(spec_letters_stc)]
pub fn letters_stc() -> (letters: KeyLetters)
    ensures
        letters == spec_letters_stc(),
{
    KeyLetters { iv: 0x42, key: 0x44, mac: 0x46 }
}

/// The key of the kind `key_type` and of `key_len` octets that follows from
/// the outcome of the key exchange that is under way.
pub open spec fn state_key(pre: ClientStateView, key_type: u8, key_len: usize) -> Seq<u8> {
    derived_key(
        pre.negotiate.kex->0.hash,
        pre.negotiate.kex_output->0.shared_secret,
        pre.negotiate.kex_output->0.exchange_hash,
        pre.session_id->0,
        key_type,
        key_len as nat,
    )
}

/// The keys of one direction, and the length of its tags: the cipher with its
/// key and initialization vector; with a cipher that does not authenticate,
/// the MAC with its key, over cleartext or ciphertext as the MAC has it.
pub open spec fn direction_keys(
    pre: ClientStateView,
    cipher: CipherAlgo,
    mac: MacAlgo,
    letters: KeyLetters,
) -> (PacketKeysView, usize) {
    let cipher_keys = CipherKeysView {
        algo: cipher,
        key: state_key(pre, letters.key, cipher.key_len),
        iv: state_key(pre, letters.iv, cipher.iv_len),
    };
    match cipher.variant {
        CipherAlgoVariant::Standard => {
            let mac_keys = MacKeysView {
                algo: mac,
                key: state_key(pre, letters.mac, mac.key_len),
            };
            (
                match mac.variant {
                    MacAlgoVariant::EncryptAndMac => PacketKeysView::EncryptAndMac(
                        cipher_keys,
                        mac_keys,
                    ),
                    MacAlgoVariant::EncryptThenMac => PacketKeysView::EncryptThenMac(
                        cipher_keys,
                        mac_keys,
                    ),
                },
                mac.tag_len,
            )
        },
        CipherAlgoVariant::Aead { tag_len } => (PacketKeysView::Aead(cipher_keys), tag_len),
    }
}

/// Derives the keys of one direction from the outcome of the key exchange
/// that is under way.
pub fn derive_direction_keys(
    st: &ClientState,
    cipher_algo: CipherAlgo,
    mac_algo: MacAlgo,
    letters: KeyLetters,
) -> (r: (PacketKeys, usize))
    requires
        st@.wf(),
        st@.negotiate.has_output(),
    ensures
        (r.0@, r.1) == direction_keys(st@, cipher_algo, mac_algo, letters),
{
    let cipher_key: Vec<u8> = derive_key(st, letters.key, cipher_algo.key_len);
    let cipher_iv: Vec<u8> = derive_key(st, letters.iv, cipher_algo.iv_len);
    let cipher_keys = CipherKeys { algo: cipher_algo, key: cipher_key, iv: cipher_iv };

    match cipher_algo.variant {
        CipherAlgoVariant::Standard => {
            let mac_key: Vec<u8> = derive_key(st, letters.mac, mac_algo.key_len);
            let mac_keys = MacKeys { algo: mac_algo, key: mac_key };

            let packet_keys = match mac_algo.variant {
                MacAlgoVariant::EncryptAndMac => PacketKeys::EncryptAndMac(cipher_keys, mac_keys),
                MacAlgoVariant::EncryptThenMac => PacketKeys::EncryptThenMac(
                    cipher_keys,
                    mac_keys,
                ),
            };
            (packet_keys, mac_algo.tag_len)
        },
        CipherAlgoVariant::Aead { tag_len } => (PacketKeys::Aead(cipher_keys), tag_len),
    }
}

/// The reason given when `SSH_MSG_NEWKEYS` comes a second time.
pub const NEWKEYS_TWICE: &'static str = "received SSH_MSG_NEWKEYS twice";

/// The reason given when `SSH_MSG_NEWKEYS` comes while no key exchange has an
/// outcome.
pub const NEWKEYS_UNEXPECTED: &'static str = "received unexpected SSH_MSG_NEWKEYS";

/// What receiving `SSH_MSG_NEWKEYS` makes of a state: the keys for the
/// direction from server to client are derived and protect whatever comes in
/// from now on. It is an error outside a key exchange, before the exchange has
/// an outcome, and a second time.
pub open spec fn received_new_keys(pre: ClientStateView) -> Result<ClientStateView, ErrorView> {
    let expected = pre.negotiate.state == State::Kex || pre.negotiate.state
        == State::AcceptPubkey || pre.negotiate.state == State::NewKeys;
    if expected && pre.negotiate.new_keys_recvd {
        Err(ErrorView::Protocol(NEWKEYS_TWICE))
    } else if !expected || pre.negotiate.kex_output is None {
        Err(ErrorView::Protocol(NEWKEYS_UNEXPECTED))
    } else {
        let algos = pre.negotiate.algos->0;
        let (keys, tag_len) = direction_keys(pre, algos.cipher_stc, algos.mac_stc, letters_stc());
        Ok(
            ClientStateView {
                codec: CodecView {
                    recv_pipe: RecvPipeView {
                        keys,
                        block_len: algos.cipher_stc.block_len,
                        tag_len,
                        ..pre.codec.recv_pipe
                    },
                    ..pre.codec
                },
                negotiate: NegotiateView { new_keys_recvd: true, ..pre.negotiate },
                ..pre
            },
        )
    }
}

/// Takes the peer's `SSH_MSG_NEWKEYS`. On failure the state stays as it is.
pub fn recv_new_keys(st: &mut ClientState, _payload: &mut PacketDecode) -> (r: Result<(), Error>)
    requires
        old(st)@.wf(),
    ensures
        *final(_payload) == *old(_payload),
        match received_new_keys(old(st)@) {
            Ok(post) => r is Ok && final(st)@ == post,
            Err(e) => r matches Err(err) && err@ == e && final(st)@ == old(st)@,
        },
        final(st)@.wf(),
        final(st)@.follows(old(st)@),
{
    match st.negotiate_st.state {
        State::Kex | State::AcceptPubkey | State::NewKeys => {
            if st.negotiate_st.new_keys_recvd {
                return Err(Error::Protocol(NEWKEYS_TWICE));
            }
        },
        _ => {
            return Err(Error::Protocol(NEWKEYS_UNEXPECTED));
        },
    }
    if st.negotiate_st.kex_output.is_none() {
        return Err(Error::Protocol(NEWKEYS_UNEXPECTED));
    }
    let algos: Algos = match st.negotiate_st.algos {
        Some(algos) => algos,
        None => unreached(),
    };

    let (packet_decrypt, tag_len) = derive_direction_keys(
        st,
        algos.cipher_stc,
        algos.mac_stc,
        letters_stc(),
    );
    st.codec.recv_pipe.set_decrypt(packet_decrypt, algos.cipher_stc.block_len, tag_len);

    st.negotiate_st.new_keys_recvd = true;
    Ok(())
}

/// What sending `SSH_MSG_NEWKEYS` makes of a state: the message goes out under
/// the keys before, and the keys for the direction from client to server are
/// derived and protect whatever is sent after it.
pub open spec fn sent_new_keys(pre: ClientStateView) -> ClientStateView {
    let algos = pre.negotiate.algos->0;
    let (keys, tag_len) = direction_keys(pre, algos.cipher_cts, algos.mac_cts, letters_cts());
    ClientStateView {
        codec: CodecView {
            send_pipe: pre.codec.send_pipe.fed(seq![msg::NEWKEYS]).keyed(
                keys,
                algos.cipher_cts.block_len,
                tag_len,
            ),
            ..pre.codec
        },
        ..pre
    }
}

/// Sends `SSH_MSG_NEWKEYS` and takes the new keys into use for sending.
pub fn send_new_keys(st: &mut ClientState)
    requires
        old(st)@.wf(),
        old(st)@.negotiate.has_output(),
    ensures
        final(st)@ == sent_new_keys(old(st)@),
        final(st)@.wf(),
        final(st)@.follows(old(st)@),
{
    let algos: Algos = match st.negotiate_st.algos {
        Some(algos) => algos,
        None => unreached(),
    };

    let (packet_encrypt, tag_len) = derive_direction_keys(
        st,
        algos.cipher_cts,
        algos.mac_cts,
        letters_cts(),
    );

    let mut payload = PacketEncode::new();
    payload.put_u8(msg::NEWKEYS);
    assert(payload@ =~= seq![msg::NEWKEYS]);
    st.codec.send_pipe.feed_packet(payload.as_bytes());

    st.codec.send_pipe.set_encrypt(packet_encrypt, algos.cipher_cts.block_len, tag_len);
}

/// The name by which a server tells that it understands `SSH_MSG_EXT_INFO`.
pub const EXT_INFO_S: &'static str = "ext-info-s";

/// The payload of an `SSH_MSG_EXT_INFO` without extensions (RFC 8308).
pub open spec fn ext_info_payload() -> Seq<u8> {
    seq![msg::EXT_INFO] + wire::u32_be(0)
}

/// What [`maybe_send_ext_info`] makes of a state: in the first key exchange
/// with a server that announced `ext-info-s`, an `SSH_MSG_EXT_INFO` goes out.
pub open spec fn maybe_sent_ext_info(pre: ClientStateView) -> ClientStateView {
    if !pre.last_kex.done && pre.negotiate.their_kex_init->0.kex_algos.contains(
        EXT_INFO_S.spec_bytes(),
    ) {
        ClientStateView {
            codec: CodecView {
                send_pipe: pre.codec.send_pipe.fed(ext_info_payload()),
                ..pre.codec
            },
            ..pre
        }
    } else {
        pre
    }
}

/// Sends `SSH_MSG_EXT_INFO`. We have no extension to announce.
pub fn send_ext_info(st: &mut ClientState)
    ensures
        final(st)@ == (ClientStateView {
            codec: CodecView {
                send_pipe: old(st)@.codec.send_pipe.fed(ext_info_payload()),
                ..old(st)@.codec
            },
            ..old(st)@
        }),
        final(st)@.follows(old(st)@),
        old(st)@.wf() ==> final(st)@.wf(),
{
    let mut payload = PacketEncode::new();
    payload.put_u8(msg::EXT_INFO);
    payload.put_u32(0);
    st.codec.send_pipe.feed_packet(payload.as_bytes());
}

/// Sends `SSH_MSG_EXT_INFO` after our first `SSH_MSG_NEWKEYS` if the server
/// announced that it understands it.
pub fn maybe_send_ext_info(st: &mut ClientState) -> (r: Result<(), Error>)
    requires
        old(st)@.wf(),
        old(st)@.negotiate.their_kex_init is Some,
    ensures
        r is Ok,
        final(st)@ == maybe_sent_ext_info(old(st)@),
        final(st)@.wf(),
        final(st)@.follows(old(st)@),
{
    let ext_info_s: bool = match &st.negotiate_st.their_kex_init {
        Some(their) => contains_name(&their.kex_algos, EXT_INFO_S.as_bytes()),
        None => false,
    };
    if !st.last_kex.done && ext_info_s {
        send_ext_info(st);
    }
    Ok(())
}

/// The reason given when the peer rejects our `SSH_MSG_KEXINIT` after it has
/// sent its own.
pub const REJECTED_AFTER_KEXINIT: &'static str =
    "peer rejected our SSH_MSG_KEX_INIT, but they sent their SSH_MSG_KEX_INIT";

/// The reason given when the peer rejects our first `SSH_MSG_KEXINIT`.
pub const REJECTED_FIRST_KEXINIT: &'static str = "peer rejected our first SSH_MSG_KEX_INIT";

/// The answers that tell each of `waiters`, in order, that the key exchange
/// ended with `outcome`.
pub open spec fn answers(waiters: Seq<u64>, outcome: KexOutcome) -> Seq<Finished> {
    Seq::new(waiters.len(), |i: int| Finished { waiter: waiters[i], outcome })
}

/// What receiving `SSH_MSG_UNIMPLEMENTED` for the packet `packet_seq` makes of
/// a state, and whether the message was about our `SSH_MSG_KEXINIT`. If it was,
/// and keys have been exchanged before, and the peer has not sent its own
/// `SSH_MSG_KEXINIT`, the exchange is given up: those who wait for it are told
/// that it was rejected, and the connection goes on with the keys it has.
pub open spec fn received_unimplemented(pre: ClientStateView, packet_seq: u32) -> Result<
    (bool, ClientStateView),
    ErrorView,
> {
    if pre.negotiate.our_kex_init matches Some(our) && our.packet_seq == packet_seq {
        if pre.negotiate.their_kex_init is Some {
            Err(ErrorView::Protocol(REJECTED_AFTER_KEXINIT))
        } else if !pre.last_kex.done {
            Err(ErrorView::Protocol(REJECTED_FIRST_KEXINIT))
        } else {
            Ok(
                (
                    true,
                    ClientStateView {
                        negotiate: NegotiateView::fresh(State::Idle),
                        finished: pre.finished + answers(
                            pre.negotiate.done_txs,
                            KexOutcome::RekeyRejected,
                        ),
                        ..pre
                    },
                ),
            )
        }
    } else {
        Ok((false, pre))
    }
}

/// Moves the answers for all of `waiters` to `finished`.
pub fn finish(finished: &mut Vec<Finished>, waiters: &Vec<u64>, outcome: KexOutcome)
    ensures
        final(finished)@ == old(finished)@ + answers(waiters@, outcome),
{
    let n: usize = waiters.len();
    let mut i: usize = 0;
    assert(answers(waiters@, outcome).take(0) =~= Seq::<Finished>::empty());
    assert(old(finished)@ + Seq::<Finished>::empty() =~= old(finished)@);
    while i < n
        invariant
            n == waiters@.len(),
            i <= n,
            finished@ == old(finished)@ + answers(waiters@, outcome).take(i as int),
        decreases n - i,
    {
        finished.push(Finished { waiter: waiters[i], outcome });
        i = i + 1;
        assert(answers(waiters@, outcome).take(i as int) =~= answers(waiters@, outcome).take(
            i - 1,
        ).push(Finished { waiter: waiters@[i - 1], outcome }));
        assert(finished@ =~= old(finished)@ + answers(waiters@, outcome).take(i as int));
    }
    assert(answers(waiters@, outcome).take(n as int) =~= answers(waiters@, outcome));
}

/// Takes an `SSH_MSG_UNIMPLEMENTED` that names the packet `packet_seq`, and
/// tells whether it was about the key exchange. On failure the state stays as
/// it is.
pub fn recv_unimplemented(st: &mut ClientState, packet_seq: u32) -> (r: Result<bool, Error>)
    requires
        old(st)@.wf(),
    ensures
        match received_unimplemented(old(st)@, packet_seq) {
            Ok((ours, post)) => r == Ok::<bool, Error>(ours) && final(st)@ == post,
            Err(e) => r matches Err(err) && err@ == e && final(st)@ == old(st)@,
        },
        final(st)@.wf(),
        final(st)@.follows(old(st)@),
{
    let ours: bool = match &st.negotiate_st.our_kex_init {
        Some(our_kex_init) => our_kex_init.packet_seq == packet_seq,
        None => false,
    };
    if ours {
        if st.negotiate_st.their_kex_init.is_some() {
            return Err(Error::Protocol(REJECTED_AFTER_KEXINIT));
        }
        if !st.last_kex.done {
            return Err(Error::Protocol(REJECTED_FIRST_KEXINIT));
        }

        finish(&mut st.finished, &st.negotiate_st.done_txs, KexOutcome::RekeyRejected);
        st.negotiate_st = new_negotiate(State::Idle);
        return Ok(true);
    }
    Ok(false)
}

/// The reason given when a message of a key exchange comes while none runs.
pub const UNEXPECTED_KEX_MESSAGE: &'static str = "received unexpected kex message";

/// Takes a message with a number that belongs to key exchanges, from 30 to
/// 49. If an exchange runs, the driver has to hand the message to it, and gets
/// its algorithm; else the message is an error.
pub fn recv_kex_packet(st: &ClientState, msg_id: u8) -> (r: Result<KexAlgo, Error>)
    ensures
        match st@.negotiate.kex {
            Some(kex) => r == Ok::<KexAlgo, Error>(kex),
            None => r == Err::<KexAlgo, Error>(Error::Protocol(UNEXPECTED_KEX_MESSAGE)),
        },
{
    match st.negotiate_st.kex {
        Some(kex) => Ok(kex),
        None => Err(Error::Protocol(UNEXPECTED_KEX_MESSAGE)),
    }
}

/// Takes a message with a number that belongs to the negotiation, from 20 to
/// 29, whose number has been read from `payload` already.
pub fn recv_negotiate_packet(st: &mut ClientState, msg_id: u8, payload: &mut PacketDecode) -> (r:
    Result<(), Error>)
    requires
        old(st)@.wf(),
    ensures
        final(payload).original() == old(payload).original(),
        if msg_id == msg::KEXINIT {
            match received_kex_init(
                old(st)@,
                old(payload).original(),
                old(payload).remaining(),
            ) {
                Ok(post) => {
                    &&& r is Ok
                    &&& final(st)@ == post
                    &&& parse_kex_init(old(payload).remaining()) matches Some((_, _, rest))
                    &&& final(payload).remaining() == rest
                },
                Err(e) => r matches Err(err) && err@ == e && final(st)@ == old(st)@
                    && final(payload).remaining() == old(payload).remaining(),
            }
        } else if msg_id == msg::NEWKEYS {
            &&& final(payload).remaining() == old(payload).remaining()
            &&& match received_new_keys(old(st)@) {
                Ok(post) => r is Ok && final(st)@ == post,
                Err(e) => r matches Err(err) && err@ == e && final(st)@ == old(st)@,
            }
        } else {
            &&& r == Err::<(), Error>(Error::PacketNotImplemented(msg_id))
            &&& final(st)@ == old(st)@
            &&& final(payload).remaining() == old(payload).remaining()
        },
        final(st)@.wf(),
        final(st)@.follows(old(st)@),
{
    if msg_id == msg::KEXINIT {
        recv_kex_init(st, payload)
    } else if msg_id == msg::NEWKEYS {
        recv_new_keys(st, payload)
    } else {
        Err(Error::PacketNotImplemented(msg_id))
    }
}

/// What the driver found when it asked, before a step, for what the step
/// needs from outside (see [`wanted`]).
pub enum Polled {
    /// Nothing was wanted, or what was wanted is not there yet.
    Pending,
    /// The key exchange has this message to send.
    KexPacket(bytes::Bytes),
    /// The key exchange has finished with this outcome.
    KexOutput(KexOutput),
    /// The application has accepted the server's public key.
    Accepted,
    /// The application has rejected the server's public key, or will never
    /// answer.
    Rejected,
}

/// What a [`Polled`] holds.
pub enum PolledView {
    Pending,
    KexPacket(Seq<u8>),
    KexOutput(KexOutputView),
    Accepted,
    Rejected,
}

impl View for Polled {
    type V = PolledView;

    open spec fn view(&self) -> PolledView {
        match self {
            Polled::Pending => PolledView::Pending,
            Polled::KexPacket(payload) => PolledView::KexPacket(buf::contents(*payload)),
            Polled::KexOutput(output) => PolledView::KexOutput(output@),
            Polled::Accepted => PolledView::Accepted,
            Polled::Rejected => PolledView::Rejected,
        }
    }
}

/// What the next step needs from outside.
pub enum Wanted {
    /// Nothing.
    Nothing,
    /// What the key exchange with this algorithm, over these identification
    /// strings and `SSH_MSG_KEXINIT` payloads, has next: a message to send, or
    /// its outcome.
    Kex(KexAlgo, KexInput),
    /// The application's answer to the event that presented the server's
    /// public key.
    Accept,
}

/// What a [`Wanted`] holds.
pub enum WantedView {
    Nothing,
    Kex { algo: KexAlgo, client_ident: Seq<u8>, server_ident: Seq<u8>, client_kex_init: Seq<
        u8,
    >, server_kex_init: Seq<u8> },
    Accept,
}

impl View for Wanted {
    type V = WantedView;

    open spec fn view(&self) -> WantedView {
        match self {
            Wanted::Nothing => WantedView::Nothing,
            Wanted::Kex(algo, input) => WantedView::Kex {
                algo: *algo,
                client_ident: buf::contents(input.client_ident),
                server_ident: buf::contents(input.server_ident),
                client_kex_init: buf::contents(input.client_kex_init),
                server_kex_init: buf::contents(input.server_kex_init),
            },
            Wanted::Accept => WantedView::Accept,
        }
    }
}

/// What the next step of a state needs from outside.
pub open spec fn wanted_of(pre: ClientStateView) -> WantedView {
    if pre.negotiate.state == State::Kex {
        WantedView::Kex {
            algo: pre.negotiate.kex->0,
            client_ident: pre.our_ident,
            server_ident: pre.their_ident->0,
            client_kex_init: pre.negotiate.our_kex_init->0.payload,
            server_kex_init: pre.negotiate.their_kex_init->0.payload,
        }
    } else if pre.negotiate.state == State::AcceptPubkey && pre.negotiate.pubkey_event is None {
        WantedView::Accept
    } else {
        WantedView::Nothing
    }
}

/// Tells the driver what to ask for before the next step.
pub fn wanted(st: &ClientState) -> (w: Wanted)
    requires
        st@.wf(),
    ensures
        w@ == wanted_of(st@),
{
    match st.negotiate_st.state {
        State::Kex => {
            match (
                &st.negotiate_st.kex,
                &st.their_ident,
                &st.negotiate_st.our_kex_init,
                &st.negotiate_st.their_kex_init,
            ) {
                (Some(kex), Some(their_ident), Some(our), Some(their)) => Wanted::Kex(
                    *kex,
                    KexInput {
                        client_ident: buf::clone(&st.our_ident),
                        server_ident: buf::clone(their_ident),
                        client_kex_init: buf::clone(&our.payload),
                        server_kex_init: buf::clone(&their.payload),
                    },
                ),
                _ => unreached(),
            }
        },
        State::AcceptPubkey => {
            if st.negotiate_st.pubkey_event.is_none() {
                Wanted::Accept
            } else {
                Wanted::Nothing
            }
        },
        _ => Wanted::Nothing,
    }
}

/// The reason given when a key exchange yields a shared secret that no
/// `mpint` can hold.
pub const SECRET_TOO_LONG: &'static str = "the shared secret is too long";

/// Whether it is time to exchange keys again (RFC 4253, section 9): we are
/// authenticated, and since the last exchange more octets than the
/// configuration allows have been received, or sent, or more time has passed.
pub open spec fn rekey_due(pre: ClientStateView, now: u64) -> bool {
    &&& pre.authenticated
    &&& {
        ||| pre.codec.recv_pipe.recvd_bytes - pre.last_kex.recvd_bytes
            > pre.config.rekey_after_bytes
        ||| pre.codec.send_pipe.sent_bytes - pre.last_kex.sent_bytes
            > pre.config.rekey_after_bytes
        ||| now - pre.last_kex.instant > pre.config.rekey_after_duration
    }
}

/// A step while no key exchange is under way: one is started if it is time.
pub open spec fn pumped_idle(pre: ClientStateView, now: u64) -> (
    Result<Pump, ErrorView>,
    ClientStateView,
) {
    if rekey_due(pre, now) {
        (Ok(Pump::Progress), started_kex(pre, None))
    } else {
        (Ok(Pump::Pending), pre)
    }
}

/// A step while `SSH_MSG_KEXINIT` are exchanged: ours is sent if it has not
/// been; once both are there, the algorithms are chosen and the exchange
/// proper begins.
pub open spec fn pumped_kex_init(pre: ClientStateView, cookie: Option<Seq<u8>>) -> (
    Result<Pump, ErrorView>,
    ClientStateView,
) {
    if pre.negotiate.our_kex_init is None && cookie is None {
        (Err(ErrorView::Crypto(NO_RANDOM)), pre)
    } else {
        let sent = if pre.negotiate.our_kex_init is None {
            let (our_kex_init, post) = sent_kex_init(pre, cookie->0);
            ClientStateView {
                negotiate: NegotiateView { our_kex_init: Some(our_kex_init), ..post.negotiate },
                ..post
            }
        } else {
            pre
        };
        if sent.negotiate.their_kex_init is Some {
            match negotiated_algos(
                sent.negotiate.our_kex_init->0,
                sent.negotiate.their_kex_init->0,
            ) {
                Err(e) => (Err(e), sent),
                Ok(algos) => (
                    Ok(Pump::Progress),
                    ClientStateView {
                        negotiate: NegotiateView {
                            algos: Some(algos),
                            kex: Some(algos.kex),
                            state: State::Kex,
                            ..sent.negotiate
                        },
                        ..sent
                    },
                ),
            }
        } else {
            (Ok(Pump::Pending), sent)
        }
    }
}

/// A step while the exchange proper runs. A message of the exchange is sent.
/// The outcome of the exchange is taken: the first exchange hash becomes the
/// session identifier, the server's public key is decoded, its signature of
/// the exchange hash is verified, and the key is put before the application.
pub open spec fn pumped_kex(pre: ClientStateView, polled: PolledView) -> (
    Result<Pump, ErrorView>,
    ClientStateView,
) {
    match polled {
        PolledView::KexPacket(payload) => (
            Ok(Pump::Progress),
            ClientStateView {
                codec: CodecView { send_pipe: pre.codec.send_pipe.fed(payload), ..pre.codec },
                ..pre
            },
        ),
        PolledView::KexOutput(output) => if output.shared_secret.len() >= u32::MAX {
            (Err(ErrorView::Crypto(SECRET_TOO_LONG)), pre)
        } else {
            let named = ClientStateView {
                session_id: if pre.session_id is None {
                    Some(output.exchange_hash)
                } else {
                    pre.session_id
                },
                ..pre
            };
            match Pubkey::decoded(output.server_pubkey) {
                Err(e) => (Err(e@), named),
                Ok(octets) => {
                    let kind = pre.negotiate.algos->0.server_pubkey.kind;
                    let pubkey = Pubkey::with_octets(octets);
                    match crate::pubkey::verify_outcome(
                        kind,
                        pubkey,
                        output.exchange_hash,
                        output.server_exchange_hash_sign,
                    ) {
                        Err(e) => (Err(e@), named),
                        Ok(_) => (
                            Ok(Pump::Progress),
                            ClientStateView {
                                negotiate: NegotiateView {
                                    state: State::AcceptPubkey,
                                    kex_output: Some(output),
                                    signature_verified: Some(
                                        (
                                            kind,
                                            pubkey,
                                            output.exchange_hash,
                                            output.server_exchange_hash_sign,
                                        ),
                                    ),
                                    pubkey_event: Some(ClientEvent::ServerPubkey(pubkey)),
                                    ..pre.negotiate
                                },
                                ..named
                            },
                        ),
                    }
                },
            }
        },
        _ => (Ok(Pump::Pending), pre),
    }
}

/// A step while the application decides on the server's public key. The event
/// that presents the key is handed over as soon as the place for events is
/// free. After that the answer counts: acceptance lets the exchange go on,
/// rejection ends it.
pub open spec fn pumped_accept_pubkey(pre: ClientStateView, polled: PolledView) -> (
    Result<Pump, ErrorView>,
    ClientStateView,
) {
    if pre.negotiate.pubkey_event is Some {
        if pre.event is Some {
            (Ok(Pump::Pending), pre)
        } else {
            (
                Ok(Pump::Progress),
                ClientStateView {
                    event: pre.negotiate.pubkey_event,
                    negotiate: NegotiateView { pubkey_event: None, ..pre.negotiate },
                    ..pre
                },
            )
        }
    } else {
        match polled {
            PolledView::Accepted => (
                Ok(Pump::Progress),
                ClientStateView {
                    negotiate: NegotiateView {
                        pubkey_accepted: true,
                        state: State::NewKeys,
                        ..pre.negotiate
                    },
                    ..pre
                },
            ),
            PolledView::Rejected => (Err(ErrorView::PubkeyAccept), pre),
            _ => (Ok(Pump::Pending), pre),
        }
    }
}

/// A step while `SSH_MSG_NEWKEYS` are exchanged: ours is sent if it has not
/// been, with `SSH_MSG_EXT_INFO` behind it where that is due; once the peer's
/// has come too, the exchange is done.
pub open spec fn pumped_new_keys(pre: ClientStateView) -> (
    Result<Pump, ErrorView>,
    ClientStateView,
) {
    if !pre.negotiate.new_keys_sent {
        let sent = sent_new_keys(pre);
        (
            Ok(Pump::Progress),
            maybe_sent_ext_info(
                ClientStateView {
                    negotiate: NegotiateView { new_keys_sent: true, ..sent.negotiate },
                    ..sent
                },
            ),
        )
    } else if pre.negotiate.new_keys_recvd {
        (
            Ok(Pump::Progress),
            ClientStateView {
                negotiate: NegotiateView { state: State::Done, ..pre.negotiate },
                ..pre
            },
        )
    } else {
        (Ok(Pump::Pending), pre)
    }
}

/// The step that ends a key exchange: those who wait for it are told, nothing
/// of the exchange is kept, and the counters and the clock are recorded.
pub open spec fn pumped_done(pre: ClientStateView, now: u64) -> (
    Result<Pump, ErrorView>,
    ClientStateView,
) {
    (
        Ok(Pump::Progress),
        ClientStateView {
            negotiate: NegotiateView::fresh(State::Idle),
            finished: pre.finished + answers(pre.negotiate.done_txs, KexOutcome::Done),
            last_kex: LastKex {
                done: true,
                recvd_bytes: pre.codec.recv_pipe.recvd_bytes,
                sent_bytes: pre.codec.send_pipe.sent_bytes,
                instant: now,
            },
            ..pre
        },
    )
}

/// One step of the key exchange: what it returns and what it makes of the
/// state. `now` is the reading of the clock, `polled` what the driver found
/// outside, and `cookie` the random octets that are there for an
/// `SSH_MSG_KEXINIT`, if any are.
pub open spec fn pumped(
    pre: ClientStateView,
    now: u64,
    polled: PolledView,
    cookie: Option<Seq<u8>>,
) -> (Result<Pump, ErrorView>, ClientStateView) {
    match pre.negotiate.state {
        State::Idle => pumped_idle(pre, now),
        State::KexInit => pumped_kex_init(pre, cookie),
        State::Kex => pumped_kex(pre, polled),
        State::AcceptPubkey => pumped_accept_pubkey(pre, polled),
        State::NewKeys => pumped_new_keys(pre),
        State::Done => pumped_done(pre, now),
    }
}

/// Takes the outcome of the exchange proper.
pub fn recv_kex_output(st: &mut ClientState, kex_output: KexOutput) -> (r: Result<Pump, Error>)
    requires
        old(st)@.wf(),
        old(st)@.negotiate.state == State::Kex,
    ensures
        (result_view(r), final(st)@) == pumped_kex(old(st)@, PolledView::KexOutput(kex_output@)),
        final(st)@.wf(),
        final(st)@.follows(old(st)@),
{
    if kex_output.shared_secret.len() >= u32::MAX as usize {
        return Err(Error::Crypto(SECRET_TOO_LONG));
    }
    if st.session_id.is_none() {
        st.session_id = Some(buf::clone(&kex_output.exchange_hash));
    }

    let pubkey_algo: PubkeyAlgo = match st.negotiate_st.algos {
        Some(algos) => algos.server_pubkey,
        None => unreached(),
    };
    let pubkey: Pubkey = Pubkey::decode(buf::clone(&kex_output.server_pubkey))?;
    proof {
        let Pubkey::Ed25519(key) = pubkey;
        key.lemma_with_octets();
    }

    let signature_verified: SignatureVerified = pubkey_algo.verify(
        &pubkey,
        buf::as_slice(&kex_output.exchange_hash),
        buf::clone(&kex_output.server_exchange_hash_sign),
    )?;
    st.negotiate_st.signature_verified = Some(signature_verified);
    st.negotiate_st.kex_output = Some(kex_output);

    st.negotiate_st.pubkey_event = Some(ClientEvent::ServerPubkey(pubkey));
    st.negotiate_st.state = State::AcceptPubkey;
    Ok(Pump::Progress)
}

/// One step of the key exchange, with the random octets for an
/// `SSH_MSG_KEXINIT` given. `now` is the reading of a monotonic clock, in
/// milliseconds, and `polled` what the driver found when it asked for what
/// [`wanted`] named.
pub fn pump_negotiate_with(
    st: &mut ClientState,
    now: u64,
    polled: Polled,
    cookie: Option<[u8; 16]>,
) -> (r: Result<Pump, Error>)
    requires
        old(st)@.wf(),
    ensures
        (result_view(r), final(st)@) == pumped(old(st)@, now, polled@, view_of(cookie)),
        final(st)@.wf(),
        final(st)@.follows(old(st)@),
{
    match st.negotiate_st.state {
        State::Idle => {
            if is_authenticated(st) {
                let recvd_after_kex: u64 = st.codec.recv_pipe.recvd_bytes()
                    - st.last_kex.recvd_bytes;
                let sent_after_kex: u64 = st.codec.send_pipe.sent_bytes() - st.last_kex.sent_bytes;
                let late: bool = now > st.last_kex.instant && now - st.last_kex.instant
                    > st.config.rekey_after_duration;
                if recvd_after_kex > st.config.rekey_after_bytes || sent_after_kex
                    > st.config.rekey_after_bytes || late {
                    start_kex(st, None);
                    return Ok(Pump::Progress);
                }
            }
        },
        State::KexInit => {
            if st.negotiate_st.our_kex_init.is_none() {
                let our_kex_init: OurKexInit = match cookie {
                    Some(cookie) => send_kex_init_with(st, &cookie),
                    None => {
                        return Err(Error::Crypto(NO_RANDOM));
                    },
                };
                st.negotiate_st.our_kex_init = Some(our_kex_init);
            }
            if st.negotiate_st.our_kex_init.is_some() && st.negotiate_st.their_kex_init.is_some() {
                let algos: Algos = negotiate_algos(st)?;
                st.negotiate_st.algos = Some(algos);
                st.negotiate_st.kex = Some(algos.kex);
                st.negotiate_st.state = State::Kex;
                return Ok(Pump::Progress);
            }
        },
        State::Kex => {
            match polled {
                Polled::KexPacket(payload) => {
                    st.codec.send_pipe.feed_packet(buf::as_slice(&payload));
                    return Ok(Pump::Progress);
                },
                Polled::KexOutput(kex_output) => {
                    return recv_kex_output(st, kex_output);
                },
                _ => {},
            }
        },
        State::AcceptPubkey => {
            if st.negotiate_st.pubkey_event.is_some() {
                if st.event.is_some() {
                    return Ok(Pump::Pending);
                }
                st.event = st.negotiate_st.pubkey_event.take();
                return Ok(Pump::Progress);
            }
            match polled {
                Polled::Accepted => {
                    st.negotiate_st.pubkey_accepted = true;
                    st.negotiate_st.state = State::NewKeys;
                    return Ok(Pump::Progress);
                },
                Polled::Rejected => {
                    return Err(Error::PubkeyAccept);
                },
                _ => {},
            }
        },
        State::NewKeys => {
            if !st.negotiate_st.new_keys_sent {
                send_new_keys(st);
                st.negotiate_st.new_keys_sent = true;
                maybe_send_ext_info(st)?;
                return Ok(Pump::Progress);
            }
            if st.negotiate_st.new_keys_sent && st.negotiate_st.new_keys_recvd {
                st.negotiate_st.state = State::Done;
                return Ok(Pump::Progress);
            }
        },
        State::Done => {
            finish(&mut st.finished, &st.negotiate_st.done_txs, KexOutcome::Done);
            st.negotiate_st = new_negotiate(State::Idle);
            st.last_kex = LastKex {
                done: true,
                recvd_bytes: st.codec.recv_pipe.recvd_bytes(),
                sent_bytes: st.codec.send_pipe.sent_bytes(),
                instant: now,
            };
            return Ok(Pump::Progress);
        },
    }
    Ok(Pump::Pending)
}

/// One step of the key exchange. `now` is the reading of a monotonic clock,
/// in milliseconds, and `polled` what the driver found when it asked for what
/// [`wanted`] named. Where an `SSH_MSG_KEXINIT` is to be sent, its cookie comes
/// from the operating system's source of randomness.
pub fn pump_negotiate(st: &mut ClientState, now: u64, polled: Polled) -> (r: Result<Pump, Error>)
    requires
        old(st)@.wf(),
    ensures
        exists|cookie: Option<Seq<u8>>|
            (cookie matches Some(octets) ==> octets.len() == 16) && (result_view(r), final(st)@)
                == #[trigger] pumped(old(st)@, now, polled@, cookie),
        final(st)@.wf(),
        final(st)@.follows(old(st)@),
{
    let needs_cookie: bool = matches!(st.negotiate_st.state, State::KexInit)
        && st.negotiate_st.our_kex_init.is_none();
    let cookie: Option<[u8; 16]> = if needs_cookie {
        random_cookie()
    } else {
        None
    };
    pump_negotiate_with(st, now, polled, cookie)
}

/// Key derivation can be repeated: two keys that were derived from the same
/// shared secret, exchange hash and session identifier, for the same letter
/// and of the same length, are the same octet for octet.
pub proof fn lemma_derived_key_is_reproducible(
    first: Seq<u8>,
    second: Seq<u8>,
    hash: HashAlgo,
    shared_secret: Seq<u8>,
    exchange_hash: Seq<u8>,
    session_id: Seq<u8>,
    key_type: u8,
    key_len: nat,
)
    requires
        first == derived_key(hash, shared_secret, exchange_hash, session_id, key_type, key_len),
        second == derived_key(hash, shared_secret, exchange_hash, session_id, key_type, key_len),
    ensures
        first == second,
{
}

/// Keys are exchanged again in time: when the client is authenticated and no
/// key exchange is under way, and since the last exchange more octets than
/// `rekey_after_bytes` have been sent, or more have been received, the next
/// step starts a key exchange, whatever else it finds.
pub proof fn lemma_rekey_after_bytes(
    pre: ClientStateView,
    now: u64,
    polled: PolledView,
    cookie: Option<Seq<u8>>,
)
    requires
        pre.negotiate.state == State::Idle,
        pre.authenticated,
        pre.codec.send_pipe.sent_bytes - pre.last_kex.sent_bytes >= pre.config.rekey_after_bytes
            + 1 || pre.codec.recv_pipe.recvd_bytes - pre.last_kex.recvd_bytes
            >= pre.config.rekey_after_bytes + 1,
    ensures
        pumped(pre, now, polled, cookie).0 == Ok::<Pump, ErrorView>(Pump::Progress),
        pumped(pre, now, polled, cookie).1.negotiate.state == State::KexInit,
        pumped(pre, now, polled, cookie).1.wakeup,
{
}

/// Keys are exchanged again in time: when the client is authenticated and no
/// key exchange is under way, and more milliseconds than
/// `rekey_after_duration` have passed since the last exchange, the next step
/// starts a key exchange.
pub proof fn lemma_rekey_after_duration(
    pre: ClientStateView,
    now: u64,
    polled: PolledView,
    cookie: Option<Seq<u8>>,
)
    requires
        pre.negotiate.state == State::Idle,
        pre.authenticated,
        now - pre.last_kex.instant > pre.config.rekey_after_duration,
    ensures
        pumped(pre, now, polled, cookie).0 == Ok::<Pump, ErrorView>(Pump::Progress),
        pumped(pre, now, polled, cookie).1.negotiate.state == State::KexInit,
{
}

/// A key exchange keeps the session identifier: no step of it changes a
/// session identifier that is set, and the first exchange hash becomes the
/// session identifier where none is set.
pub proof fn lemma_pumped_keeps_session_id(
    pre: ClientStateView,
    now: u64,
    polled: PolledView,
    cookie: Option<Seq<u8>>,
)
    ensures
        pre.session_id is Some ==> pumped(pre, now, polled, cookie).1.session_id
            == pre.session_id,
        pumped(pre, now, polled, cookie).1.authenticated == pre.authenticated,
{
}

} // verus!
