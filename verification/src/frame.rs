//! Length-prefixed framing of the SMPP byte stream.
//!
//! An SMPP frame starts with a 4-octet big-endian `command_length` that
//! counts the whole PDU, itself included.  The reader buffers what the
//! socket yields and cuts it into frames; whether a frame's declared
//! length is acceptable is decided here, while parsing the frame's
//! contents is the codec's job.

use vstd::prelude::*;
use crate::errors::ParseErrorData;
use crate::pdu::{ESME_RINVCMDLEN, ESME_RSYSERR};

verus! {

/// No PDU may declare fewer octets than a command_length and command_id.
pub const MIN_PDU_LENGTH: usize = 8;

/// No valid PDU is longer than this; a larger declared length is
/// rejected without waiting for that many octets.
pub const MAX_PDU_LENGTH: usize = 70000;

/// The 32-bit big-endian integer at the front of `b`.
pub open spec fn be32(b: Seq<u8>) -> int
    recommends
        b.len() >= 4,
{
    b[0] * 0x1000000 + b[1] * 0x10000 + b[2] * 0x100 + b[3]
}

/// What the buffered bytes hold: not yet a whole frame, a frame of
/// `len` octets, or a declared length outside the allowed range.
#[derive(Clone, Copy, Debug, PartialEq, Eq, Structural)]
pub enum FrameCheck {
    Incomplete,
    Ready { len: usize },
    BadLength { declared: u32 },
}

/// The framing rule: with fewer than 4 octets nothing is known; then
/// the declared length must lie between `MIN_PDU_LENGTH` and
/// `MAX_PDU_LENGTH`, and the frame is ready once that many octets are
/// buffered.
pub open spec fn spec_frame_check(b: Seq<u8>) -> FrameCheck {
    if b.len() < 4 {
        FrameCheck::Incomplete
    } else {
        let l = be32(b);
        if l < MIN_PDU_LENGTH as int || l > MAX_PDU_LENGTH as int {
            FrameCheck::BadLength { declared: l as u32 }
        } else if b.len() < l {
            FrameCheck::Incomplete
        } else {
            FrameCheck::Ready { len: l as usize }
        }
    }
}

pub fn check_frame(b: &Vec<u8>) -> (r: FrameCheck)
    ensures
        r == spec_frame_check(b@),
{
    if b.len() < 4 {
        return FrameCheck::Incomplete;
    }
    let l: u32 = (b[0] as u32) * 0x1000000 + (b[1] as u32) * 0x10000 + (b[2] as u32) * 0x100
        + (b[3] as u32);
    if l < MIN_PDU_LENGTH as u32 || l > MAX_PDU_LENGTH as u32 {
        FrameCheck::BadLength { declared: l }
    } else if b.len() < l as usize {
        FrameCheck::Incomplete
    } else {
        FrameCheck::Ready { len: l as usize }
    }
}

/// One step of the reader: wait for more bytes, hand out a whole frame,
/// or abort because the declared length is out of range.
#[derive(Debug)]
pub enum FrameStep {
    NeedMore,
    Frame(Vec<u8>),
    Bad(ParseErrorData),
}

/// What a read of zero bytes (end of stream) means.
#[derive(Debug)]
pub enum EofOutcome {
    /// The peer closed on a frame boundary: not an error.
    CleanClose,
    /// The peer closed mid-frame; the connection dies with this error.
    Abort(ParseErrorData),
}

/// Buffers the byte stream of one connection and cuts it into frames.
pub struct FrameReader {
    buffer: Vec<u8>,
}

impl View for FrameReader {
    type V = Seq<u8>;

    closed spec fn view(&self) -> Seq<u8> {
        self.buffer@
    }
}

impl FrameReader {
    pub fn new() -> (r: FrameReader)
        ensures
            r@ == Seq::<u8>::empty(),
    {
        FrameReader { buffer: Vec::with_capacity(4096) }
    }

    /// Take in what the socket yielded.
    pub fn push_bytes(&mut self, data: &[u8])
        ensures
            final(self)@ == old(self)@ + data@,
    {
        let mut i: usize = 0;
        while i < data.len()
            invariant
                i <= data@.len(),
                self.buffer@ == old(self)@ + data@.take(i as int),
            decreases data@.len() - i,
        {
            self.buffer.push(data[i]);
            proof {
                assert(data@.take(i + 1) =~= data@.take(i as int).push(data@[i as int]));
            }
            i = i + 1;
        }
        proof {
            assert(data@.take(data@.len() as int) =~= data@);
        }
    }

    /// Cut the next frame off the front of the buffer.
    ///
    /// When a whole frame is buffered it is removed and returned; an
    /// out-of-range declared length yields the error the codec assigns
    /// such lengths, `ESME_RINVCMDLEN`, with no header fields known.
    pub fn next_frame(&mut self) -> (r: FrameStep)
        ensures
            match r {
                FrameStep::NeedMore => {
                    &&& spec_frame_check(old(self)@) is Incomplete
                    &&& final(self)@ == old(self)@
                },
                FrameStep::Frame(f) => {
                    &&& spec_frame_check(old(self)@) matches FrameCheck::Ready { len }
                    &&& f@ == old(self)@.take(spec_frame_check(old(self)@)->Ready_len as int)
                    &&& final(self)@ == old(self)@.skip(spec_frame_check(old(self)@)->Ready_len as int)
                    &&& spec_frame_check(f@) == spec_frame_check(old(self)@)
                },
                FrameStep::Bad(e) => {
                    &&& spec_frame_check(old(self)@) is BadLength
                    &&& final(self)@ == old(self)@
                    &&& e.command_id is None
                    &&& e.sequence_number is None
                    &&& e.status == ESME_RINVCMDLEN
                },
            },
    {
        match check_frame(&self.buffer) {
            FrameCheck::Incomplete => FrameStep::NeedMore,
            FrameCheck::BadLength { declared: _ } => FrameStep::Bad(
                ParseErrorData { command_id: None, sequence_number: None, status: ESME_RINVCMDLEN },
            ),
            FrameCheck::Ready { len } => {
                proof {
                    let b = self.buffer@;
                    let fs = b.take(len as int);
                    assert(fs[0] == b[0]);
                    assert(fs[1] == b[1]);
                    assert(fs[2] == b[2]);
                    assert(fs[3] == b[3]);
                    assert(be32(fs) == be32(b));
                    assert(spec_frame_check(fs) == spec_frame_check(b));
                }
                let mut rest = self.buffer.split_off(len);
                core::mem::swap(&mut self.buffer, &mut rest);
                FrameStep::Frame(rest)
            },
        }
    }

    /// Decide what the end of the stream means: a clean close on a
    /// frame boundary, or an abort when bytes of an unfinished frame
    /// remain; the codec maps that condition to `ESME_RSYSERR`.
    pub fn eof_outcome(&self) -> (r: EofOutcome)
        ensures
            match r {
                EofOutcome::CleanClose => self@.len() == 0,
                EofOutcome::Abort(e) => {
                    &&& self@.len() > 0
                    &&& e.command_id is None
                    &&& e.sequence_number is None
                    &&& e.status == ESME_RSYSERR
                },
            },
    {
        if self.buffer.len() == 0 {
            EofOutcome::CleanClose
        } else {
            EofOutcome::Abort(
                ParseErrorData { command_id: None, sequence_number: None, status: ESME_RSYSERR },
            )
        }
    }
}

} // verus!
