//! Frame decoder of the raw printer protocol: a connection submits arbitrary
//! bytes ended by the EOT byte, and one print job is cut from them.
//!
//! The emitted job keeps the terminator: byte `0x04` is present in the job
//! payload, as its last byte. The whole frame, terminator included, is removed
//! from the buffer.

use vstd::prelude::*;
use crate::buffer::{buffered, buf_advance, buf_byte, buf_len, buf_prefix};

verus! {

/// The byte that ends a submission (ASCII EOT).
pub const TERMINATOR: u8 = 4;

/// Largest frame, terminator included, that a session accepts by default.
pub const DEFAULT_MAX_FRAME: usize = 16777216;

/// Where a decoding session stands.
#[derive(Debug, Clone, Copy, PartialEq, Eq, Structural)]
pub enum SessionState {
    /// No frame yet; more bytes are welcome.
    Streaming,
    /// A frame was emitted; the session takes no more input.
    Closed,
}

/// Why a decode call produced no frame.
#[derive(Debug, Clone, Copy, PartialEq, Eq, Structural)]
pub enum FrameError {
    /// The session already emitted its frame.
    AlreadyFinished,
    /// The frame would exceed the session's size limit.
    FrameTooLarge,
}

/// Index of the first terminator in `s`, or `s.len()` where there is none.
pub open spec fn first_terminator(s: Seq<u8>) -> nat
    decreases s.len(),
{
    if s.len() == 0 {
        0
    } else if s[0] == TERMINATOR {
        0
    } else {
        1 + first_terminator(s.drop_first())
    }
}

/// What decoding `s` yields in `state` under the limit `max`: a frame (the
/// bytes through the first terminator), no frame yet, or an error.
pub open spec fn frame_result(state: SessionState, max: nat, s: Seq<u8>) -> Result<
    Option<Seq<u8>>,
    FrameError,
> {
    let k = first_terminator(s);
    if state == SessionState::Closed {
        Err(FrameError::AlreadyFinished)
    } else if k < s.len() && k < max {
        Ok(Some(s.take(k + 1 as int)))
    } else if s.len() >= max {
        Err(FrameError::FrameTooLarge)
    } else {
        Ok(None)
    }
}

/// The session state after decoding: closed once a frame was emitted.
pub open spec fn next_state(state: SessionState, max: nat, s: Seq<u8>) -> SessionState {
    match frame_result(state, max, s) {
        Ok(Some(_)) => SessionState::Closed,
        _ => state,
    }
}

/// The buffer after decoding: what followed the emitted frame, or all of it.
pub open spec fn rest_after(state: SessionState, max: nat, s: Seq<u8>) -> Seq<u8> {
    match frame_result(state, max, s) {
        Ok(Some(f)) => s.skip(f.len() as int),
        _ => s,
    }
}

/// `first_terminator` is the index of the earliest terminator, when one exists.
pub proof fn lemma_first_terminator(s: Seq<u8>)
    ensures
        first_terminator(s) <= s.len(),
        first_terminator(s) < s.len() ==> s[first_terminator(s) as int] == TERMINATOR,
        forall|j: int| 0 <= j < first_terminator(s) ==> s[j] != TERMINATOR,
    decreases s.len(),
{
    if s.len() > 0 && s[0] != TERMINATOR {
        lemma_first_terminator(s.drop_first());
        assert forall|j: int| 0 <= j < first_terminator(s) implies s[j] != TERMINATOR by {
            if j > 0 {
                assert(s[j] == s.drop_first()[j - 1]);
            }
        }
    }
}

/// Any index of a terminator with none before it is the first terminator.
pub proof fn lemma_first_terminator_at(s: Seq<u8>, k: int)
    requires
        0 <= k <= s.len(),
        k < s.len() ==> s[k] == TERMINATOR,
        forall|j: int| 0 <= j < k ==> s[j] != TERMINATOR,
    ensures
        first_terminator(s) == k,
{
    lemma_first_terminator(s);
    let f = first_terminator(s) as int;
    if f < k {
        assert(s[f] != TERMINATOR);
    } else if f > k {
        assert(s[k] != TERMINATOR);
    }
}

/// Finds the first terminator among the first `limit` bytes of `b`.
fn scan_for_terminator(b: &bytes::BytesMut, limit: usize) -> (r: Option<usize>)
    ensures
        match r {
            Some(k) => k < limit && k < buffered(*b).len() && first_terminator(buffered(*b))
                == k,
            None => forall|j: int|
                0 <= j < limit && j < buffered(*b).len() ==> buffered(*b)[j] != TERMINATOR,
        },
{
    let len = buf_len(b);
    let mut i: usize = 0;
    while i < len && i < limit
        invariant
            len == buffered(*b).len(),
            i <= len,
            forall|j: int| 0 <= j < i ==> buffered(*b)[j] != TERMINATOR,
        decreases len - i,
    {
        if buf_byte(b, i) == TERMINATOR {
            proof {
                lemma_first_terminator_at(buffered(*b), i as int);
            }
            return Some(i);
        }
        i = i + 1;
    }
    None
}

/// One decoding step on a session in `state` with limit `max`: cuts the
/// frame out of `src` when a terminator is there, within the limit.
fn decode_frame(state: &mut SessionState, max: usize, src: &mut bytes::BytesMut) -> (r: Result<
    Option<Vec<u8>>,
    FrameError,
>)
    ensures
        frame_bytes(r) == frame_result(*old(state), max as nat, buffered(*old(src))),
        *final(state) == next_state(*old(state), max as nat, buffered(*old(src))),
        buffered(*final(src)) == rest_after(*old(state), max as nat, buffered(*old(src))),
{
    if *state == SessionState::Closed {
        return Err(FrameError::AlreadyFinished);
    }
    let ghost s = buffered(*src);
    match scan_for_terminator(src, max) {
        Some(k) => {
            let data = buf_prefix(src, k + 1);
            buf_advance(src, k + 1);
            *state = SessionState::Closed;
            Ok(Some(data))
        },
        None => {
            let len = buf_len(src);
            proof {
                lemma_first_terminator(s);
                if first_terminator(s) < s.len() && first_terminator(s) < max {
                    assert(s[first_terminator(s) as int] == TERMINATOR);
                }
            }
            if len >= max {
                Err(FrameError::FrameTooLarge)
            } else {
                proof {
                    lemma_first_terminator_at(s, s.len() as int);
                }
                Ok(None)
            }
        },
    }
}

/// The bytes carried by a decoding result.
pub open spec fn frame_bytes(r: Result<Option<Vec<u8>>, FrameError>) -> Result<
    Option<Seq<u8>>,
    FrameError,
> {
    match r {
        Ok(Some(v)) => Ok(Some(v@)),
        Ok(None) => Ok(None),
        Err(e) => Err(e),
    }
}

/// A print job cut from a connection's stream: the submitted bytes through
/// the terminator.
#[derive(Debug, Clone)]
pub struct PrintJob(Vec<u8>);

impl PrintJob {
    pub closed spec fn view(&self) -> Seq<u8> {
        self.0@
    }

    /// Number of bytes in the job.
    pub fn len(&self) -> (r: usize)
        ensures
            r == self.view().len(),
    {
        self.0.len()
    }

    /// The job's bytes.
    pub fn as_bytes(&self) -> (r: &[u8])
        ensures
            r@ == self.view(),
    {
        self.0.as_slice()
    }

    /// Hands the job's bytes over.
    pub fn into_bytes(self) -> (r: Vec<u8>)
        ensures
            r@ == self.view(),
    {
        self.0
    }
}

impl AsRef<[u8]> for PrintJob {
    fn as_ref(&self) -> (r: &[u8])
        ensures
            r@ == self.view(),
    {
        self.0.as_slice()
    }
}

/// The bytes carried by a decoded job.
pub open spec fn job_bytes(r: Result<Option<PrintJob>, FrameError>) -> Result<
    Option<Seq<u8>>,
    FrameError,
> {
    match r {
        Ok(Some(j)) => Ok(Some(j.view())),
        Ok(None) => Ok(None),
        Err(e) => Err(e),
    }
}

/// Per-connection decoder: emits at most one job, the bytes through the first
/// terminator, and refuses frames longer than its limit.
#[derive(Debug, Clone, Copy)]
pub struct Codec {
    state: SessionState,
    max_frame: usize,
}

impl Codec {
    pub closed spec fn state(&self) -> SessionState {
        self.state
    }

    pub closed spec fn max_frame(&self) -> nat {
        self.max_frame as nat
    }

    /// A streaming session that accepts frames of up to `max_frame` bytes,
    /// terminator included.
    pub fn new(max_frame: usize) -> (r: Codec)
        ensures
            r.state() == SessionState::Streaming,
            r.max_frame() == max_frame,
    {
        Codec { state: SessionState::Streaming, max_frame }
    }

    /// Where the session stands.
    pub fn session_state(&self) -> (r: SessionState)
        ensures
            r == self.state(),
    {
        self.state
    }

    /// Decodes from the connection's buffer: a job once the first terminator
    /// is there, `None` while it is not, `FrameTooLarge` when the frame would
    /// exceed the limit, `AlreadyFinished` once a job was emitted. The job's
    /// bytes leave the buffer; on any other outcome nothing changes.
    pub fn decode(&mut self, src: &mut bytes::BytesMut) -> (r: Result<Option<PrintJob>, FrameError>)
        ensures
            job_bytes(r) == frame_result(old(self).state(), old(self).max_frame(), buffered(*old(src))),
            final(self).state() == next_state(old(self).state(), old(self).max_frame(), buffered(*old(src))),
            final(self).max_frame() == old(self).max_frame(),
            buffered(*final(src)) == rest_after(old(self).state(), old(self).max_frame(), buffered(*old(src))),
    {
        match decode_frame(&mut self.state, self.max_frame, src) {
            Ok(Some(data)) => Ok(Some(PrintJob(data))),
            Ok(None) => Ok(None),
            Err(e) => Err(e),
        }
    }
}

impl Default for Codec {
    /// A streaming session with the default frame limit.
    fn default() -> (r: Codec)
        ensures
            r.state() == SessionState::Streaming,
            r.max_frame() == DEFAULT_MAX_FRAME,
    {
        Codec::new(DEFAULT_MAX_FRAME)
    }
}

/// A stream whose first terminator is at index `k`, within the limit, yields
/// exactly one job: its first `k + 1` bytes. The session then closes.
pub proof fn lemma_frame_through_first_terminator(max: nat, s: Seq<u8>, k: int)
    requires
        0 <= k < s.len(),
        s[k] == TERMINATOR,
        forall|j: int| 0 <= j < k ==> s[j] != TERMINATOR,
        k + 1 <= max,
    ensures
        frame_result(SessionState::Streaming, max, s) == Ok::<_, FrameError>(Some(s.take(k + 1))),
        s.take(k + 1).len() == k + 1,
        forall|j: int| 0 <= j <= k ==> s.take(k + 1)[j] == s[j],
        next_state(SessionState::Streaming, max, s) == SessionState::Closed,
{
    lemma_first_terminator_at(s, k);
}

/// A closed session refuses every further decode, whatever the input.
pub proof fn lemma_closed_session_refuses(max: nat, s: Seq<u8>)
    ensures
        frame_result(SessionState::Closed, max, s) == Err::<Option<Seq<u8>>, _>(
            FrameError::AlreadyFinished,
        ),
        next_state(SessionState::Closed, max, s) == SessionState::Closed,
        rest_after(SessionState::Closed, max, s) == s,
{
}

/// A buffer without a terminator, under the limit, yields no job and leaves
/// the session streaming with its buffer as it was.
pub proof fn lemma_no_terminator_no_job(max: nat, s: Seq<u8>)
    requires
        forall|j: int| 0 <= j < s.len() ==> s[j] != TERMINATOR,
        s.len() < max,
    ensures
        frame_result(SessionState::Streaming, max, s) == Ok::<_, FrameError>(None::<Seq<u8>>),
        next_state(SessionState::Streaming, max, s) == SessionState::Streaming,
        rest_after(SessionState::Streaming, max, s) == s,
{
    lemma_first_terminator_at(s, s.len() as int);
}

/// Sessions are independent: each of several fresh sessions, fed its own
/// payload ending in its only terminator, yields exactly that payload.
pub proof fn lemma_each_session_yields_its_payload(max: nat, payloads: Seq<Seq<u8>>)
    requires
        forall|i: int|
            #![trigger payloads[i]]
            0 <= i < payloads.len() ==> {
                let p = payloads[i];
                &&& 0 < p.len() <= max
                &&& p[p.len() - 1] == TERMINATOR
                &&& forall|j: int| 0 <= j < p.len() - 1 ==> p[j] != TERMINATOR
            },
    ensures
        forall|i: int|
            #![trigger payloads[i]]
            0 <= i < payloads.len() ==> frame_result(SessionState::Streaming, max, payloads[i])
                == Ok::<_, FrameError>(Some(payloads[i])),
{
    assert forall|i: int| 0 <= i < payloads.len() implies frame_result(
        SessionState::Streaming,
        max,
        #[trigger] payloads[i],
    ) == Ok::<_, FrameError>(Some(payloads[i])) by {
        let p = payloads[i];
        lemma_first_terminator_at(p, p.len() - 1);
        assert(p.take(p.len() as int) =~= p);
    }
}

} // verus!
