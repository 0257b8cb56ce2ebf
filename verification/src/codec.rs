//! Encoding and decoding of payloads, the framing of packets, and the two
//! directions of the packet stream.

pub mod decode;
pub mod encode;
pub mod frame;
pub mod pipe;
pub mod wire;

use crate::codec::pipe::{RecvPipe, RecvPipeView, SendPipe, SendPipeView};
use vstd::prelude::*;

verus! {

/// The two directions of the packet stream.
pub struct Codec {
    pub send_pipe: SendPipe,
    pub recv_pipe: RecvPipe,
}

/// What a [`Codec`] holds.
pub struct CodecView {
    pub send_pipe: SendPipeView,
    pub recv_pipe: RecvPipeView,
}

impl View for Codec {
    type V = CodecView;

    open spec fn view(&self) -> CodecView {
        CodecView { send_pipe: self.send_pipe@, recv_pipe: self.recv_pipe@ }
    }
}

impl Codec {
    /// A stream on which nothing has travelled yet.
    pub fn new() -> (codec: Codec)
        ensures
            codec@.send_pipe == SendPipeView::fresh(),
            codec@.recv_pipe == RecvPipeView::fresh(),
    {
        Codec { send_pipe: SendPipe::new(), recv_pipe: RecvPipe::new() }
    }
}

} // verus!
