//! A connection's side of the framing: the bytes read from the stream are
//! gathered in a buffer until a whole frame can be taken from its front, and
//! a frame to send is turned into the bytes to write. The stream itself, and
//! the reads and writes on it, belong to the caller.

use vstd::prelude::*;
use bytes::BytesMut;
use crate::buffer::{buffer_advance, buffer_bytes, buffer_extend, buffered, new_buffer};
use crate::frame::{frame_bytes, parse_spec, Frame, ParseFrameError, WriteFrameError};

verus! {

/// The room that a new connection's buffer is made with.
pub const INITIAL_CAPACITY: usize = 1024;

/// Why a frame could not be sent.
#[derive(Debug, Clone, PartialEq, Eq)]
pub enum SendFrameError {
    /// The frame could not be written.
    Write { source: WriteFrameError },
    /// The stream failed.
    Network { message: String },
}

/// Why no frame could be received.
#[derive(Debug, Clone, PartialEq, Eq)]
pub enum ReceiveFrameError {
    /// The bytes received are not a frame.
    Parse { source: ParseFrameError },
    /// The peer closed the stream.
    Closed,
    /// The stream failed.
    Network { message: String },
}

/// The framing state of one connection: the bytes received and not yet
/// taken as a frame.
pub struct Connection {
    buffer: BytesMut,
}

impl View for Connection {
    type V = Seq<u8>;

    closed spec fn view(&self) -> Seq<u8> {
        buffered(self.buffer)
    }
}

impl Connection {
    /// A connection that has received nothing yet.
    pub fn new() -> (r: Connection)
        ensures
            r@ == Seq::<u8>::empty(),
    {
        Connection { buffer: new_buffer(INITIAL_CAPACITY) }
    }

    /// The number of bytes received and not yet taken.
    pub fn len(&self) -> (r: usize)
        ensures
            r == self@.len(),
    {
        buffer_bytes(&self.buffer).len()
    }

    /// The bytes of `frame`, to be written to the stream in one go.
    pub fn send(&self, frame: &Frame) -> (r: Vec<u8>)
        ensures
            r@ == frame_bytes(frame@),
    {
        let mut out: Vec<u8> = Vec::new();
        frame.write(&mut out);
        out
    }

    /// Takes the next frame from the front of the buffer. `Ok(None)` means
    /// that the buffer holds only part of a frame: read more from the stream,
    /// hand it to [`Connection::fill`] and try again. A frame that is taken
    /// leaves the buffer; otherwise the buffer is unchanged.
    pub fn receive(&mut self) -> (r: Result<Option<Frame>, ReceiveFrameError>)
        ensures
            match parse_spec(old(self)@) {
                Ok((payload, n)) => r matches Ok(Some(f)) && f@ == payload && final(self)@
                    == old(self)@.subrange(n as int, old(self)@.len() as int),
                Err(ParseFrameError::Incomplete) => r matches Ok(None) && final(self)@ == old(
                    self,
                )@,
                Err(e) => r == Err::<Option<Frame>, ReceiveFrameError>(
                    ReceiveFrameError::Parse { source: e },
                ) && final(self)@ == old(self)@,
            },
    {
        match Frame::parse(buffer_bytes(&self.buffer)) {
            Ok((frame, offset)) => {
                buffer_advance(&mut self.buffer, offset);
                Ok(Some(frame))
            },
            Err(ParseFrameError::Incomplete) => Ok(None),
            Err(err) => Err(ReceiveFrameError::Parse { source: err }),
        }
    }

    /// Adds the bytes of one read from the stream. A read of no bytes means
    /// that the peer closed the stream.
    pub fn fill(&mut self, bytes: &[u8]) -> (r: Result<(), ReceiveFrameError>)
        requires
            old(self)@.len() + bytes@.len() <= isize::MAX,
        ensures
            bytes@.len() == 0 ==> r == Err::<(), ReceiveFrameError>(ReceiveFrameError::Closed)
                && final(self)@ == old(self)@,
            bytes@.len() > 0 ==> r is Ok && final(self)@ == old(self)@ + bytes@,
    {
        if bytes.len() == 0 {
            Err(ReceiveFrameError::Closed)
        } else {
            buffer_extend(&mut self.buffer, bytes);
            Ok(())
        }
    }
}

} // verus!
