//! Sequential byte source with a tell/seek-relative capability.
//!
//! The decoder consumes instructions from a `ByteStream`; the only
//! non-sequential access is the relative seek performed by a taken
//! conditional branch.

use vstd::prelude::*;

use crate::word::{as_signed, spec_as_signed, spec_word_le, word_le};

verus! {

/// Failure of the byte source.
#[derive(Clone, Copy, Debug, PartialEq, Eq)]
pub enum StreamError {
    /// Fewer bytes remain than the read requested.
    UnexpectedEndOfStream,
    /// A relative seek would land before the start of the stream, or
    /// beyond what a stream position can represent.
    SeekOutOfRange,
}

/// An in-memory byte stream read strictly sequentially, except for
/// relative seeks. The position may lie beyond the end of the data after
/// a forward seek; every read from there fails.
pub struct ByteStream {
    data: Vec<u8>,
    pos: usize,
}

impl ByteStream {
    /// The bytes this stream serves.
    pub closed spec fn bytes(self) -> Seq<u8> {
        self.data@
    }

    /// The current read position.
    pub closed spec fn position(self) -> int {
        self.pos as int
    }

    /// A stream position is a `usize` value.
    pub proof fn lemma_position_in_range(self)
        ensures
            0 <= self.position() <= usize::MAX,
    {
    }

    pub fn new(data: Vec<u8>) -> (s: ByteStream)
        ensures
            s.bytes() == data@,
            s.position() == 0,
    {
        ByteStream { data, pos: 0 }
    }

    /// The current read position, as the underlying file's `tell` reports it.
    pub fn stream_position(&self) -> (p: usize)
        ensures
            p == self.position(),
    {
        self.pos
    }

    /// Whether at least one byte remains to be read.
    pub fn has_more(&self) -> (b: bool)
        ensures
            b == (self.position() < self.bytes().len()),
    {
        self.pos < self.data.len()
    }

    /// Read one byte and advance; fails without moving when no byte remains.
    pub fn read_byte(&mut self) -> (r: Result<u8, StreamError>)
        ensures
            final(self).bytes() == old(self).bytes(),
            old(self).position() + 1 <= old(self).bytes().len() ==> (r == Ok::<u8, StreamError>(
                old(self).bytes()[old(self).position()],
            ) && final(self).position() == old(self).position() + 1),
            old(self).position() + 1 > old(self).bytes().len() ==> (r == Err::<u8, StreamError>(
                StreamError::UnexpectedEndOfStream,
            ) && final(self).position() == old(self).position()),
    {
        if self.pos < self.data.len() {
            let b = self.data[self.pos];
            self.pos = self.pos + 1;
            Ok(b)
        } else {
            Err(StreamError::UnexpectedEndOfStream)
        }
    }

    /// Read a little-endian 16-bit word; fails without moving when fewer
    /// than two bytes remain.
    pub fn read_word(&mut self) -> (r: Result<u16, StreamError>)
        ensures
            final(self).bytes() == old(self).bytes(),
            old(self).position() + 2 <= old(self).bytes().len() ==> (r == Ok::<u16, StreamError>(
                spec_word_le(
                    old(self).bytes()[old(self).position()],
                    old(self).bytes()[old(self).position() + 1],
                ),
            ) && final(self).position() == old(self).position() + 2),
            old(self).position() + 2 > old(self).bytes().len() ==> (r == Err::<u16, StreamError>(
                StreamError::UnexpectedEndOfStream,
            ) && final(self).position() == old(self).position()),
    {
        if self.pos < self.data.len() && self.pos + 1 < self.data.len() {
            let lo = self.data[self.pos];
            let hi = self.data[self.pos + 1];
            self.pos = self.pos + 2;
            Ok(word_le(lo, hi))
        } else {
            Err(StreamError::UnexpectedEndOfStream)
        }
    }

    /// Read an immediate or displacement operand: one sign-extended byte,
    /// or a little-endian word, as a signed 16-bit value.
    pub fn read_immediate(&mut self, one_byte: bool) -> (r: Result<i16, StreamError>)
        ensures
            final(self).bytes() == old(self).bytes(),
            ({
                let needed: int = if one_byte { 1 } else { 2 };
                let value = spec_immediate(old(self).bytes(), old(self).position(), one_byte);
                &&& old(self).position() + needed <= old(self).bytes().len()
                    ==> r == Ok::<i16, StreamError>(value)
                        && final(self).position() == old(self).position() + needed
                &&& old(self).position() + needed > old(self).bytes().len()
                    ==> r == Err::<i16, StreamError>(StreamError::UnexpectedEndOfStream)
                        && final(self).position() == old(self).position()
            }),
    {
        if one_byte {
            match self.read_byte() {
                Ok(b) => Ok(crate::word::sign_extend8(b)),
                Err(e) => Err(e),
            }
        } else {
            match self.read_word() {
                Ok(w) => Ok(as_signed(w)),
                Err(e) => Err(e),
            }
        }
    }

    /// Move the read position by `offset` bytes; fails without moving when
    /// the target would lie before the start of the stream or beyond what
    /// a position can hold.
    pub fn seek_relative(&mut self, offset: i16) -> (r: Result<(), StreamError>)
        ensures
            final(self).bytes() == old(self).bytes(),
            0 <= old(self).position() + offset <= usize::MAX ==> (r == Ok::<(), StreamError>(())
                && final(self).position() == old(self).position() + offset),
            !(0 <= old(self).position() + offset <= usize::MAX) ==> (r == Err::<(), StreamError>(
                StreamError::SeekOutOfRange,
            ) && final(self).position() == old(self).position()),
    {
        let target: i128 = self.pos as i128 + offset as i128;
        if 0 <= target && target <= usize::MAX as i128 {
            self.pos = target as usize;
            Ok(())
        } else {
            Err(StreamError::SeekOutOfRange)
        }
    }
}

/// The signed 16-bit value encoded at `pos`: one sign-extended byte, or a
/// little-endian word.
pub open spec fn spec_immediate(bytes: Seq<u8>, pos: int, one_byte: bool) -> i16 {
    if one_byte {
        crate::word::spec_sign_extend8(bytes[pos])
    } else {
        spec_as_signed(spec_word_le(bytes[pos], bytes[pos + 1]))
    }
}

} // verus!
