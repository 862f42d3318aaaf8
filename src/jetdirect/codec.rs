//! Framing for the raw-socket listener: the session's job comes out as plain
//! bytes.

use vstd::prelude::*;
use crate::buffer::buffered;
use crate::codec::{frame_bytes, frame_result, next_state, rest_after, FrameError, SessionState};

verus! {

/// Per-connection decoder of the raw-socket listener; it frames as
/// `crate::codec::Codec` does and yields the job's bytes.
#[derive(Debug, Clone, Copy)]
pub struct Codec {
    inner: crate::codec::Codec,
}

impl Codec {
    pub closed spec fn state(&self) -> SessionState {
        self.inner.state()
    }

    pub closed spec fn max_frame(&self) -> nat {
        self.inner.max_frame()
    }

    /// A streaming session that accepts frames of up to `max_frame` bytes,
    /// terminator included.
    pub fn new(max_frame: usize) -> (r: Codec)
        ensures
            r.state() == SessionState::Streaming,
            r.max_frame() == max_frame,
    {
        Codec { inner: crate::codec::Codec::new(max_frame) }
    }

    /// Decodes from the connection's buffer, as `crate::codec::Codec::decode`
    /// does, handing out the job's bytes.
    pub fn decode(&mut self, src: &mut bytes::BytesMut) -> (r: Result<Option<Vec<u8>>, FrameError>)
        ensures
            frame_bytes(r) == frame_result(old(self).state(), old(self).max_frame(), buffered(*old(src))),
            final(self).state() == next_state(old(self).state(), old(self).max_frame(), buffered(*old(src))),
            final(self).max_frame() == old(self).max_frame(),
            buffered(*final(src)) == rest_after(old(self).state(), old(self).max_frame(), buffered(*old(src))),
    {
        match self.inner.decode(src) {
            Ok(Some(job)) => Ok(Some(job.into_bytes())),
            Ok(None) => Ok(None),
            Err(e) => Err(e),
        }
    }
}

impl Default for Codec {
    /// A streaming session with the default frame limit.
    fn default() -> (r: Codec)
        ensures
            r.state() == SessionState::Streaming,
            r.max_frame() == crate::codec::DEFAULT_MAX_FRAME,
    {
        Codec::new(crate::codec::DEFAULT_MAX_FRAME)
    }
}

} // verus!
