//! The frame codec. A frame is one start byte, the payload's length as an
//! eight-byte big-endian integer, and then the payload: the serialized
//! envelope, which the codec carries as bytes.

use vstd::prelude::*;

verus! {

/// The byte that every frame starts with.
pub const FRAME_START: u8 = 0x2b;

/// The length of a frame's header: the start byte and the length.
pub const HEADER_LEN: usize = 9;

/// The eight big-endian bytes of `n`.
pub open spec fn be_bytes(n: u64) -> Seq<u8> {
    seq![
        (n >> 56u64) as u8,
        (n >> 48u64) as u8,
        (n >> 40u64) as u8,
        (n >> 32u64) as u8,
        (n >> 24u64) as u8,
        (n >> 16u64) as u8,
        (n >> 8u64) as u8,
        n as u8,
    ]
}

/// The integer that eight big-endian bytes stand for.
pub open spec fn be_value(s: Seq<u8>) -> u64
    recommends
        s.len() == 8,
{
    (s[0] as u64) << 56u64 | (s[1] as u64) << 48u64 | (s[2] as u64) << 40u64 | (s[3] as u64)
        << 32u64 | (s[4] as u64) << 24u64 | (s[5] as u64) << 16u64 | (s[6] as u64) << 8u64 | (
    s[7] as u64)
}

/// The bytes of a frame that carries `payload`.
pub open spec fn frame_bytes(payload: Seq<u8>) -> Seq<u8> {
    seq![FRAME_START] + be_bytes(payload.len() as u64) + payload
}

/// The payload length that the header at the front of `s` announces.
pub open spec fn announced_len(s: Seq<u8>) -> u64 {
    be_value(s.subrange(1, 9))
}

/// Why no frame could be taken from a buffer.
#[derive(Debug, Clone, PartialEq, Eq)]
pub enum ParseFrameError {
    /// The buffer holds only the beginning of a frame: read more and retry.
    Incomplete,
    /// The buffer does not start with the start byte.
    InvalidStart,
    /// The header announces an empty payload.
    InvalidLength,
    /// The payload is not a well-formed envelope.
    Deserialization { message: String },
}

/// Why a frame could not be written.
#[derive(Debug, Clone, PartialEq, Eq)]
pub enum WriteFrameError {
    /// The envelope could not be serialized.
    Serialization { message: String },
}

/// What parsing makes of the bytes `s`: the payload of the frame at their
/// front and the number of bytes it takes up, or why there is none.
pub open spec fn parse_spec(s: Seq<u8>) -> Result<(Seq<u8>, nat), ParseFrameError> {
    if s.len() == 0 {
        Err(ParseFrameError::Incomplete)
    } else if s[0] != FRAME_START {
        Err(ParseFrameError::InvalidStart)
    } else if s.len() < 9 {
        Err(ParseFrameError::Incomplete)
    } else if announced_len(s) == 0 {
        Err(ParseFrameError::InvalidLength)
    } else if announced_len(s) > s.len() - 9 {
        Err(ParseFrameError::Incomplete)
    } else {
        Ok((s.subrange(9, 9 + announced_len(s)), (9 + announced_len(s)) as nat))
    }
}

/// One frame: the serialized envelope it carries.
#[derive(Debug, Clone, PartialEq, Eq)]
pub struct Frame {
    data: Vec<u8>,
}

impl View for Frame {
    type V = Seq<u8>;

    closed spec fn view(&self) -> Seq<u8> {
        self.data@
    }
}

/// Reads the big-endian integer in `buf[at..at + 8]`.
fn read_u64_be(buf: &[u8], at: usize) -> (r: u64)
    requires
        at + 8 <= buf@.len(),
    ensures
        r == be_value(buf@.subrange(at as int, at + 8)),
{
    let s = Ghost(buf@.subrange(at as int, at + 8));
    assert(s@[0] == buf@[at as int] && s@[7] == buf@[at + 7]);
    (buf[at] as u64) << 56u64 | (buf[at + 1] as u64) << 48u64 | (buf[at + 2] as u64) << 40u64 | (
    buf[at + 3] as u64) << 32u64 | (buf[at + 4] as u64) << 24u64 | (buf[at + 5] as u64) << 16u64
        | (buf[at + 6] as u64) << 8u64 | (buf[at + 7] as u64)
}

/// Appends the eight big-endian bytes of `n` to `out`.
fn write_u64_be(out: &mut Vec<u8>, n: u64)
    ensures
        final(out)@ == old(out)@ + be_bytes(n),
{
    out.push((n >> 56u64) as u8);
    out.push((n >> 48u64) as u8);
    out.push((n >> 40u64) as u8);
    out.push((n >> 32u64) as u8);
    out.push((n >> 24u64) as u8);
    out.push((n >> 16u64) as u8);
    out.push((n >> 8u64) as u8);
    out.push(n as u8);
    assert(final(out)@ =~= old(out)@ + be_bytes(n));
}

/// Copies `buf[from..to]` into a new vector.
fn copy_range(buf: &[u8], from: usize, to: usize) -> (r: Vec<u8>)
    requires
        from <= to <= buf@.len(),
    ensures
        r@ == buf@.subrange(from as int, to as int),
{
    let mut out: Vec<u8> = Vec::with_capacity(to - from);
    let mut i: usize = from;
    while i < to
        invariant
            from <= i <= to <= buf@.len(),
            out@ == buf@.subrange(from as int, i as int),
        decreases to - i,
    {
        out.push(buf[i]);
        i = i + 1;
        assert(out@ =~= buf@.subrange(from as int, i as int));
    }
    out
}

impl Frame {
    /// A frame that carries `data`.
    pub fn new(data: Vec<u8>) -> (r: Frame)
        ensures
            r@ == data@,
    {
        Frame { data }
    }

    /// The payload.
    pub fn data(&self) -> (r: &Vec<u8>)
        ensures
            r@ == self@,
    {
        &self.data
    }

    /// Takes the frame at the front of `buf`, and returns it with the number
    /// of bytes it takes up. Bytes after the frame are left alone; on an
    /// error nothing is taken.
    pub fn parse(buf: &[u8]) -> (r: Result<(Frame, usize), ParseFrameError>)
        ensures
            match r {
                Ok((f, n)) => parse_spec(buf@) == Ok::<(Seq<u8>, nat), ParseFrameError>(
                    (f@, n as nat),
                ),
                Err(e) => parse_spec(buf@) == Err::<(Seq<u8>, nat), ParseFrameError>(e),
            },
    {
        if buf.len() < 1 {
            return Err(ParseFrameError::Incomplete);
        }
        if buf[0] != FRAME_START {
            return Err(ParseFrameError::InvalidStart);
        }
        if buf.len() < HEADER_LEN {
            return Err(ParseFrameError::Incomplete);
        }
        let len = read_u64_be(buf, 1);
        if len == 0 {
            return Err(ParseFrameError::InvalidLength);
        }
        if len > (buf.len() - HEADER_LEN) as u64 {
            return Err(ParseFrameError::Incomplete);
        }
        let end = HEADER_LEN + len as usize;
        let data = copy_range(buf, HEADER_LEN, end);
        Ok((Frame { data }, end))
    }

    /// Appends the bytes of this frame to `buf`.
    pub fn write(&self, buf: &mut Vec<u8>)
        ensures
            final(buf)@ == old(buf)@ + frame_bytes(self@),
    {
        buf.push(FRAME_START);
        write_u64_be(buf, self.data.len() as u64);
        let mut i: usize = 0;
        let ghost head = buf@;
        while i < self.data.len()
            invariant
                i <= self.data@.len(),
                buf@ == head + self.data@.subrange(0, i as int),
            decreases self.data@.len() - i,
        {
            buf.push(self.data[i]);
            i = i + 1;
            assert(buf@ =~= head + self.data@.subrange(0, i as int));
        }
        assert(self.data@.subrange(0, i as int) =~= self.data@);
        assert(final(buf)@ =~= old(buf)@ + frame_bytes(self@));
    }
}

/// The eight bytes of an integer stand for that integer again.
pub proof fn lemma_be_round_trip(n: u64)
    ensures
        be_value(be_bytes(n)) == n,
{
    let b = be_bytes(n);
    let (b0, b1, b2, b3, b4, b5, b6, b7) = (b[0], b[1], b[2], b[3], b[4], b[5], b[6], b[7]);
    assert(b0 == (n >> 56u64) as u8 && b1 == (n >> 48u64) as u8 && b2 == (n >> 40u64) as u8 && b3
        == (n >> 32u64) as u8);
    assert(b4 == (n >> 24u64) as u8 && b5 == (n >> 16u64) as u8 && b6 == (n >> 8u64) as u8 && b7
        == n as u8);
    assert((((n >> 56u64) as u8) as u64) << 56u64 | (((n >> 48u64) as u8) as u64) << 48u64 | (((n
        >> 40u64) as u8) as u64) << 40u64 | (((n >> 32u64) as u8) as u64) << 32u64 | (((n
        >> 24u64) as u8) as u64) << 24u64 | (((n >> 16u64) as u8) as u64) << 16u64 | (((n
        >> 8u64) as u8) as u64) << 8u64 | ((n as u8) as u64) == n) by (bit_vector);
}

/// A frame written and then parsed gives back its payload and its whole
/// length, whatever follows it in the buffer; the payload must not be empty.
pub proof fn lemma_frame_round_trip(payload: Seq<u8>, rest: Seq<u8>)
    requires
        0 < payload.len() <= u64::MAX,
    ensures
        parse_spec(frame_bytes(payload) + rest) == Ok::<(Seq<u8>, nat), ParseFrameError>(
            (payload, 9 + payload.len()),
        ),
{
    let s = frame_bytes(payload) + rest;
    lemma_be_round_trip(payload.len() as u64);
    assert(s.subrange(1, 9) =~= be_bytes(payload.len() as u64));
    assert(s.subrange(9, 9 + payload.len() as int) =~= payload);
}

/// A buffer that holds less than a whole frame, from the start byte on,
/// gives `Incomplete`: too short for the header, or shorter than the length
/// that the header announces.
pub proof fn lemma_truncated_is_incomplete(s: Seq<u8>)
    requires
        s.len() == 0 || s[0] == FRAME_START,
        s.len() < 9 || announced_len(s) > s.len() - 9,
    ensures
        parse_spec(s) == Err::<(Seq<u8>, nat), ParseFrameError>(ParseFrameError::Incomplete),
{
}

/// A buffer whose first byte is not the start byte gives `InvalidStart`,
/// however short it is.
pub proof fn lemma_wrong_start(s: Seq<u8>)
    requires
        s.len() >= 1,
        s[0] != FRAME_START,
    ensures
        parse_spec(s) == Err::<(Seq<u8>, nat), ParseFrameError>(ParseFrameError::InvalidStart),
{
}

} // verus!
