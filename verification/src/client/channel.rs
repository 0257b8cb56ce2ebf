//! One channel: its two windows, its closing and its requests (RFC 4254,
//! section 5).

use crate::error::Error;
use vstd::prelude::*;

verus! {

/// The reason given when data comes on a channel that the peer has ended or
/// that we have closed.
pub const DATA_AFTER_END: &'static str = "received channel data after the channel was ended";

/// The reason given when a packet of data is larger than we allow.
pub const DATA_TOO_LONG: &'static str = "received channel data that exceeds the maximum packet size";

/// The reason given when data is more than the window that we opened.
pub const WINDOW_EXCEEDED: &'static str = "received channel data that exceeds the window";

/// The reason given when the peer opens its window beyond what the protocol
/// can express.
pub const WINDOW_OVERFLOW: &'static str = "received a window adjustment that is too large";

/// The reason given when the peer ends a channel twice.
pub const ENDED_TWICE: &'static str = "received end or close of a channel twice";

/// The reason given when a reply comes for which no request waits.
pub const NO_REQUEST: &'static str = "received a reply to a channel request that was not made";

/// The state of an open channel.
#[derive(Debug, Clone, PartialEq, Eq)]
pub struct ChannelState {
    pub(crate) our_id: u32,
    pub(crate) their_id: u32,
    pub(crate) recv_window: u32,
    pub(crate) recv_window_max: u32,
    pub(crate) recv_packet_len_max: u32,
    pub(crate) send_window: u32,
    pub(crate) send_packet_len_max: u32,
    pub(crate) sent_eof: bool,
    pub(crate) recv_eof: bool,
    pub(crate) sent_close: bool,
    pub(crate) recv_close: bool,
    pub(crate) requests: Vec<u64>,
}

/// What a [`ChannelState`] holds.
pub struct ChannelView {
    /// The number by which the peer names the channel to us.
    pub our_id: u32,
    /// The number by which we name the channel to the peer.
    pub their_id: u32,
    /// How many octets of data the peer may still send us.
    pub recv_window: u32,
    /// How many octets the peer may send us when its window is full.
    pub recv_window_max: u32,
    /// How many octets of data the peer may send us in one packet.
    pub recv_packet_len_max: u32,
    /// How many octets of data we may still send the peer.
    pub send_window: u32,
    /// How many octets of data we may send the peer in one packet.
    pub send_packet_len_max: u32,
    /// We have told the peer that we send no more data.
    pub sent_eof: bool,
    /// The peer has told us that it sends no more data.
    pub recv_eof: bool,
    /// We have closed the channel.
    pub sent_close: bool,
    /// The peer has closed the channel.
    pub recv_close: bool,
    /// The requests that wait for a reply, oldest first.
    pub requests: Seq<u64>,
}

impl View for ChannelState {
    type V = ChannelView;

    open(crate) spec fn view(&self) -> ChannelView {
        ChannelView {
            our_id: self.our_id,
            their_id: self.their_id,
            recv_window: self.recv_window,
            recv_window_max: self.recv_window_max,
            recv_packet_len_max: self.recv_packet_len_max,
            send_window: self.send_window,
            send_packet_len_max: self.send_packet_len_max,
            sent_eof: self.sent_eof,
            recv_eof: self.recv_eof,
            sent_close: self.sent_close,
            recv_close: self.recv_close,
            requests: self.requests@,
        }
    }
}

impl ChannelView {
    /// The peer's window is never open wider than we said.
    pub open spec fn wf(self) -> bool {
        self.recv_window <= self.recv_window_max
    }

    /// A channel that has just been confirmed: the windows are full and
    /// nothing is ended.
    pub open spec fn opened(
        our_id: u32,
        their_id: u32,
        recv_window_max: u32,
        recv_packet_len_max: u32,
        send_window: u32,
        send_packet_len_max: u32,
    ) -> ChannelView {
        ChannelView {
            our_id,
            their_id,
            recv_window: recv_window_max,
            recv_window_max,
            recv_packet_len_max,
            send_window,
            send_packet_len_max,
            sent_eof: false,
            recv_eof: false,
            sent_close: false,
            recv_close: false,
            requests: Seq::empty(),
        }
    }

    /// Both sides have closed the channel: its record is no longer needed.
    pub open spec fn is_closed(self) -> bool {
        self.sent_close && self.recv_close
    }

    /// How many octets of `pending` octets of data go out in the next packet:
    /// as many as fit in one packet, if the peer's window holds that many and
    /// we have not ended our side; else none.
    pub open spec fn frame_len(self, pending: nat) -> nat {
        let frame = if pending <= self.send_packet_len_max {
            pending
        } else {
            self.send_packet_len_max as nat
        };
        if !self.sent_eof && !self.sent_close && frame <= self.send_window {
            frame
        } else {
            0
        }
    }

    /// The channel after the next packet of `pending` octets of data went out.
    pub open spec fn sent_data(self, pending: nat) -> ChannelView {
        ChannelView { send_window: (self.send_window - self.frame_len(pending)) as u32, ..self }
    }

    /// The channel after `len` octets of data came in, and by how much the
    /// window is opened again: once half of it is used up, it is filled up. It
    /// is an error if the channel is ended, if the data is more than one packet
    /// may hold, or more than the window.
    pub open spec fn received_data(self, len: nat) -> Result<(ChannelView, Option<u32>), Error> {
        if self.sent_close || self.recv_eof || self.recv_close {
            Err(Error::Protocol(DATA_AFTER_END))
        } else if len > self.recv_packet_len_max {
            Err(Error::Protocol(DATA_TOO_LONG))
        } else if len > self.recv_window {
            Err(Error::Protocol(WINDOW_EXCEEDED))
        } else {
            let left = (self.recv_window - len) as u32;
            if left <= self.recv_window_max / 2 {
                Ok(
                    (
                        ChannelView { recv_window: self.recv_window_max, ..self },
                        Some((self.recv_window_max - left) as u32),
                    ),
                )
            } else {
                Ok((ChannelView { recv_window: left, ..self }, None))
            }
        }
    }

    /// The channel after the peer opened its window by `n` octets more.
    pub open spec fn adjusted(self, n: u32) -> Result<ChannelView, Error> {
        if self.send_window + n > u32::MAX {
            Err(Error::Protocol(WINDOW_OVERFLOW))
        } else {
            Ok(ChannelView { send_window: (self.send_window + n) as u32, ..self })
        }
    }

    /// The channel after each of `pendings` was offered for sending in turn.
    pub open spec fn sent_all(self, pendings: Seq<nat>) -> ChannelView
        decreases pendings.len(),
    {
        if pendings.len() == 0 {
            self
        } else {
            self.sent_all(pendings.drop_last()).sent_data(pendings.last())
        }
    }

    /// The octets that went out when each of `pendings` was offered for
    /// sending in turn.
    pub open spec fn total_sent(self, pendings: Seq<nat>) -> nat
        decreases pendings.len(),
    {
        if pendings.len() == 0 {
            0
        } else {
            self.total_sent(pendings.drop_last()) + self.sent_all(
                pendings.drop_last(),
            ).frame_len(pendings.last())
        }
    }
}

/// The peer's window never goes below zero: whatever is offered for sending,
/// and in whatever order, what goes out and what is left of the window make
/// up the window as it was. So no more goes out than the window allowed.
pub proof fn lemma_window_is_respected(channel: ChannelView, pendings: Seq<nat>)
    ensures
        channel.total_sent(pendings) + channel.sent_all(pendings).send_window
            == channel.send_window,
        channel.total_sent(pendings) <= channel.send_window,
    decreases pendings.len(),
{
    if pendings.len() > 0 {
        lemma_window_is_respected(channel, pendings.drop_last());
    }
}

/// Data that is more than the window we opened, or more than we have ever
/// allowed in the window, is rejected.
pub proof fn lemma_window_is_enforced(channel: ChannelView, len: nat)
    requires
        channel.wf(),
        len > channel.recv_window || len > channel.recv_window_max,
    ensures
        channel.received_data(len) is Err,
{
}

impl ChannelState {
    /// The state of a channel that has just been confirmed.
    pub fn new(
        our_id: u32,
        their_id: u32,
        recv_window_max: u32,
        recv_packet_len_max: u32,
        send_window: u32,
        send_packet_len_max: u32,
    ) -> (channel: ChannelState)
        ensures
            channel@ == ChannelView::opened(
                our_id,
                their_id,
                recv_window_max,
                recv_packet_len_max,
                send_window,
                send_packet_len_max,
            ),
            channel@.wf(),
    {
        ChannelState {
            our_id,
            their_id,
            recv_window: recv_window_max,
            recv_window_max,
            recv_packet_len_max,
            send_window,
            send_packet_len_max,
            sent_eof: false,
            recv_eof: false,
            sent_close: false,
            recv_close: false,
            requests: Vec::new(),
        }
    }

    /// Decides how many of `pending` octets of data go out in the next packet
    /// and takes them off the peer's window. Zero means that nothing can go
    /// out now.
    pub fn send_data(&mut self, pending: usize) -> (frame: u32)
        ensures
            frame == old(self)@.frame_len(pending as nat),
            final(self)@ == old(self)@.sent_data(pending as nat),
            frame <= old(self)@.send_window,
            old(self)@.wf() ==> final(self)@.wf(),
    {
        let frame: u32 = if pending <= self.send_packet_len_max as usize {
            pending as u32
        } else {
            self.send_packet_len_max
        };
        if !self.sent_eof && !self.sent_close && frame <= self.send_window {
            self.send_window = self.send_window - frame;
            frame
        } else {
            0
        }
    }

    /// Takes `len` octets of data that came in, and tells by how much the
    /// window is to be opened again, if it is. On failure the channel stays as
    /// it is.
    pub fn recv_data(&mut self, len: usize) -> (r: Result<Option<u32>, Error>)
        requires
            old(self)@.wf(),
        ensures
            match old(self)@.received_data(len as nat) {
                Ok((post, adjust)) => r == Ok::<Option<u32>, Error>(adjust) && final(self)@
                    == post,
                Err(e) => r == Err::<Option<u32>, Error>(e) && final(self)@ == old(self)@,
            },
            final(self)@.wf(),
    {
        if self.sent_close || self.recv_eof || self.recv_close {
            return Err(Error::Protocol(DATA_AFTER_END));
        }
        if len > self.recv_packet_len_max as usize {
            return Err(Error::Protocol(DATA_TOO_LONG));
        }
        if len > self.recv_window as usize {
            return Err(Error::Protocol(WINDOW_EXCEEDED));
        }
        let left: u32 = self.recv_window - len as u32;
        if left <= self.recv_window_max / 2 {
            self.recv_window = self.recv_window_max;
            Ok(Some(self.recv_window_max - left))
        } else {
            self.recv_window = left;
            Ok(None)
        }
    }

    /// Takes a window adjustment: the peer allows `n` octets more.
    pub fn recv_window_adjust(&mut self, n: u32) -> (r: Result<(), Error>)
        ensures
            match old(self)@.adjusted(n) {
                Ok(post) => r is Ok && final(self)@ == post,
                Err(e) => r == Err::<(), Error>(e) && final(self)@ == old(self)@,
            },
            old(self)@.wf() ==> final(self)@.wf(),
    {
        if n > u32::MAX - self.send_window {
            return Err(Error::Protocol(WINDOW_OVERFLOW));
        }
        self.send_window = self.send_window + n;
        Ok(())
    }

    /// Ends our side of the channel. Tells whether `SSH_MSG_CHANNEL_EOF` has to
    /// go out: it does unless our side is ended or closed already.
    pub fn send_eof(&mut self) -> (send: bool)
        ensures
            send == (!old(self)@.sent_eof && !old(self)@.sent_close),
            final(self)@ == (ChannelView { sent_eof: old(self)@.sent_eof || send, ..old(self)@ }),
            old(self)@.wf() ==> final(self)@.wf(),
    {
        if self.sent_eof || self.sent_close {
            return false;
        }
        self.sent_eof = true;
        true
    }

    /// Closes the channel from our side. Tells whether `SSH_MSG_CHANNEL_CLOSE`
    /// has to go out: it does unless we have closed the channel already.
    pub fn send_close(&mut self) -> (send: bool)
        ensures
            send == !old(self)@.sent_close,
            final(self)@ == (ChannelView { sent_close: true, ..old(self)@ }),
            old(self)@.wf() ==> final(self)@.wf(),
    {
        if self.sent_close {
            return false;
        }
        self.sent_close = true;
        true
    }

    /// Takes `SSH_MSG_CHANNEL_EOF`: the peer sends no more data. The channel
    /// stays open.
    pub fn recv_eof(&mut self) -> (r: Result<(), Error>)
        ensures
            if old(self)@.recv_eof || old(self)@.recv_close {
                r == Err::<(), Error>(Error::Protocol(ENDED_TWICE)) && final(self)@ == old(self)@
            } else {
                r is Ok && final(self)@ == (ChannelView { recv_eof: true, ..old(self)@ })
            },
            old(self)@.wf() ==> final(self)@.wf(),
    {
        if self.recv_eof || self.recv_close {
            return Err(Error::Protocol(ENDED_TWICE));
        }
        self.recv_eof = true;
        Ok(())
    }

    /// Takes `SSH_MSG_CHANNEL_CLOSE`: the peer has closed the channel.
    pub fn recv_close(&mut self) -> (r: Result<(), Error>)
        ensures
            if old(self)@.recv_close {
                r == Err::<(), Error>(Error::Protocol(ENDED_TWICE)) && final(self)@ == old(self)@
            } else {
                r is Ok && final(self)@ == (ChannelView { recv_close: true, ..old(self)@ })
            },
            old(self)@.wf() ==> final(self)@.wf(),
    {
        if self.recv_close {
            return Err(Error::Protocol(ENDED_TWICE));
        }
        self.recv_close = true;
        Ok(())
    }

    /// Whether both sides have closed the channel.
    pub fn is_closed(&self) -> (closed: bool)
        ensures
            closed == self@.is_closed(),
    {
        self.sent_close && self.recv_close
    }

    /// Notes a request that wants a reply; the one who made it is known by
    /// `waiter`.
    pub fn send_request(&mut self, waiter: u64)
        ensures
            final(self)@ == (ChannelView {
                requests: old(self)@.requests.push(waiter),
                ..old(self)@
            }),
            old(self)@.wf() ==> final(self)@.wf(),
    {
        self.requests.push(waiter);
    }

    /// Takes `SSH_MSG_CHANNEL_SUCCESS` or `SSH_MSG_CHANNEL_FAILURE`: the reply
    /// to the oldest request that waits for one. Gives the one who made it.
    pub fn recv_reply(&mut self) -> (r: Result<u64, Error>)
        ensures
            if old(self)@.requests.len() == 0 {
                r == Err::<u64, Error>(Error::Protocol(NO_REQUEST)) && final(self)@ == old(self)@
            } else {
                r == Ok::<u64, Error>(old(self)@.requests[0]) && final(self)@ == (ChannelView {
                    requests: old(self)@.requests.skip(1),
                    ..old(self)@
                })
            },
            old(self)@.wf() ==> final(self)@.wf(),
    {
        if self.requests.len() == 0 {
            return Err(Error::Protocol(NO_REQUEST));
        }
        let waiter: u64 = self.requests.remove(0);
        assert(self.requests@ =~= old(self)@.requests.skip(1));
        Ok(waiter)
    }

    /// The number by which the peer names the channel to us.
    pub fn our_id(&self) -> (id: u32)
        ensures
            id == self@.our_id,
    {
        self.our_id
    }

    /// The number by which we name the channel to the peer.
    pub fn their_id(&self) -> (id: u32)
        ensures
            id == self@.their_id,
    {
        self.their_id
    }

    /// How many octets of data we may still send the peer.
    pub fn send_window(&self) -> (n: u32)
        ensures
            n == self@.send_window,
    {
        self.send_window
    }

    /// How many octets of data the peer may still send us.
    pub fn recv_window(&self) -> (n: u32)
        ensures
            n == self@.recv_window,
    {
        self.recv_window
    }
}

} // verus!
