//! Errors reported by the client core.

use crate::codec::wire;
use vstd::prelude::*;

verus! {

/// What went wrong.
///
/// `Protocol`, `Crypto`, `Decode`, `AlgoNegotiate`, `PubkeyAccept` and
/// `Disconnect` end the connection. `AuthAborted`, `ChannelClosed` and `Limit`
/// concern one request only.
#[derive(Debug, Clone, PartialEq, Eq)]
pub enum Error {
    /// The peer violated the protocol.
    Protocol(&'static str),
    /// A cryptographic primitive rejected its input.
    Crypto(&'static str),
    /// A payload was malformed.
    Decode(&'static str),
    /// A message with this number is not handled.
    PacketNotImplemented(u8),
    /// The two sides share no algorithm of some kind.
    AlgoNegotiate(AlgoNegotiateError),
    /// A public key of another format was expected.
    PubkeyFormat,
    /// A private key of another format was expected.
    PrivkeyFormat,
    /// A signature did not verify.
    Signature,
    /// The application did not accept the server's public key.
    PubkeyAccept,
    /// The configuration cannot be put on the wire.
    Config(&'static str),
    /// The peer has ended the connection.
    Disconnect(DisconnectError),
    /// Another attempt to authenticate is under way.
    AuthAborted,
    /// The channel is not open.
    ChannelClosed,
    /// Something is larger than the protocol can express.
    Limit(&'static str),
}

/// No algorithm of one kind is offered by both sides.
#[derive(Debug, Clone, PartialEq, Eq)]
pub struct AlgoNegotiateError {
    /// The kind of algorithm, such as `"cipher client-to-server"`.
    pub algo_name: &'static str,
    /// The names that we offered, in our order of preference.
    pub our_algos: Vec<Vec<u8>>,
    /// The names that the peer offered, in its order of preference.
    pub their_algos: Vec<Vec<u8>>,
}

/// What an [`AlgoNegotiateError`] holds.
pub struct AlgoNegotiateErrorView {
    pub algo_name: &'static str,
    pub our_algos: Seq<Seq<u8>>,
    pub their_algos: Seq<Seq<u8>>,
}

/// What an [`Error`] holds.
pub enum ErrorView {
    Protocol(&'static str),
    Crypto(&'static str),
    Decode(&'static str),
    PacketNotImplemented(u8),
    AlgoNegotiate(AlgoNegotiateErrorView),
    PubkeyFormat,
    PrivkeyFormat,
    Signature,
    PubkeyAccept,
    Config(&'static str),
    Disconnect(DisconnectErrorView),
    AuthAborted,
    ChannelClosed,
    Limit(&'static str),
}

/// The peer has ended the connection and says why.
#[derive(Debug, Clone, PartialEq, Eq)]
pub struct DisconnectError {
    /// The reason as a number (RFC 4253, section 11.1).
    pub reason_code: u32,
    /// The reason in words.
    pub description: Vec<u8>,
}

/// What a [`DisconnectError`] holds.
pub struct DisconnectErrorView {
    pub reason_code: u32,
    pub description: Seq<u8>,
}

impl View for DisconnectError {
    type V = DisconnectErrorView;

    open spec fn view(&self) -> DisconnectErrorView {
        DisconnectErrorView { reason_code: self.reason_code, description: self.description@ }
    }
}

impl View for AlgoNegotiateError {
    type V = AlgoNegotiateErrorView;

    open spec fn view(&self) -> AlgoNegotiateErrorView {
        AlgoNegotiateErrorView {
            algo_name: self.algo_name,
            our_algos: wire::views(self.our_algos@),
            their_algos: wire::views(self.their_algos@),
        }
    }
}

impl View for Error {
    type V = ErrorView;

    open spec fn view(&self) -> ErrorView {
        match self {
            Error::Protocol(reason) => ErrorView::Protocol(reason),
            Error::Crypto(reason) => ErrorView::Crypto(reason),
            Error::Decode(reason) => ErrorView::Decode(reason),
            Error::PacketNotImplemented(msg_id) => ErrorView::PacketNotImplemented(*msg_id),
            Error::AlgoNegotiate(e) => ErrorView::AlgoNegotiate(e@),
            Error::PubkeyFormat => ErrorView::PubkeyFormat,
            Error::PrivkeyFormat => ErrorView::PrivkeyFormat,
            Error::Signature => ErrorView::Signature,
            Error::PubkeyAccept => ErrorView::PubkeyAccept,
            Error::Config(reason) => ErrorView::Config(reason),
            Error::Disconnect(e) => ErrorView::Disconnect(e@),
            Error::AuthAborted => ErrorView::AuthAborted,
            Error::ChannelClosed => ErrorView::ChannelClosed,
            Error::Limit(reason) => ErrorView::Limit(reason),
        }
    }
}

/// The view of a result: the value as it is, the error by its view.
pub open spec fn result_view<T>(r: Result<T, Error>) -> Result<T, ErrorView> {
    match r {
        Ok(value) => Ok(value),
        Err(e) => Err(e@),
    }
}

} // verus!
