//! A forward-only cursor over the bytes of a file.

use crate::endian::{le_i32, le_u16, le_u32, read_i32_le, read_u16_le, read_u32_le};
use crate::error::Error;
use vstd::prelude::*;
use vstd::slice::slice_subrange;

verus! {

/// A cursor that consumes a byte slice from front to back. It never looks
/// ahead and never moves backwards; a read that would pass the end fails and
/// leaves the cursor where it was.
pub struct ByteReader<'a> {
    data: &'a [u8],
    pos: usize,
}

impl<'a> ByteReader<'a> {
    /// All the bytes the cursor runs over, consumed or not.
    pub closed spec fn bytes(&self) -> Seq<u8> {
        self.data@
    }

    /// How many bytes have been consumed.
    pub closed spec fn position(&self) -> int {
        self.pos as int
    }

    /// The cursor lies within its bytes.
    pub closed spec fn wf(&self) -> bool {
        self.pos <= self.data@.len()
    }

    /// The cursor never leaves its bytes.
    pub proof fn lemma_position_in_bounds(&self)
        requires
            self.wf(),
        ensures
            0 <= self.position() <= self.bytes().len(),
    {
    }

    /// A cursor at the start of `data`.
    pub fn new(data: &'a [u8]) -> (r: ByteReader<'a>)
        ensures
            r.wf(),
            r.bytes() == data@,
            r.position() == 0,
    {
        ByteReader { data, pos: 0 }
    }

    /// The number of bytes not yet consumed.
    pub fn remaining(&self) -> (n: usize)
        requires
            self.wf(),
        ensures
            n as int == self.bytes().len() - self.position(),
    {
        self.data.len() - self.pos
    }

    /// Consumes the next `n` bytes and hands them out.
    pub fn read_fixed_bytes(&mut self, n: u64) -> (r: Result<&'a [u8], Error>)
        requires
            old(self).wf(),
        ensures
            final(self).wf(),
            final(self).bytes() == old(self).bytes(),
            old(self).position() + n <= old(self).bytes().len() ==> r is Ok
                && final(self).position() == old(self).position() + n && r->Ok_0@
                == old(self).bytes().subrange(
                old(self).position(),
                old(self).position() + n as int,
            ),
            old(self).position() + n > old(self).bytes().len() ==> r == Err::<&[u8], Error>(
                Error::TruncatedInput,
            ) && final(self).position() == old(self).position(),
    {
        let left: usize = self.data.len() - self.pos;
        if n > left as u64 {
            return Err(Error::TruncatedInput);
        }
        let start: usize = self.pos;
        let end: usize = start + n as usize;
        self.pos = end;
        Ok(slice_subrange(self.data, start, end))
    }

    /// Consumes the next `n` bytes without looking at them.
    pub fn skip(&mut self, n: u64) -> (r: Result<(), Error>)
        requires
            old(self).wf(),
        ensures
            final(self).wf(),
            final(self).bytes() == old(self).bytes(),
            old(self).position() + n <= old(self).bytes().len() ==> r is Ok
                && final(self).position() == old(self).position() + n,
            old(self).position() + n > old(self).bytes().len() ==> r == Err::<(), Error>(
                Error::TruncatedInput,
            ) && final(self).position() == old(self).position(),
    {
        match self.read_fixed_bytes(n) {
            Ok(_) => Ok(()),
            Err(e) => Err(e),
        }
    }

    /// Consumes two bytes as an unsigned little-endian integer.
    pub fn read_u16_le(&mut self) -> (r: Result<u16, Error>)
        requires
            old(self).wf(),
        ensures
            final(self).wf(),
            final(self).bytes() == old(self).bytes(),
            old(self).position() + 2 <= old(self).bytes().len() ==> r is Ok
                && final(self).position() == old(self).position() + 2 && r->Ok_0 as int == le_u16(
                old(self).bytes(),
                old(self).position(),
            ),
            old(self).position() + 2 > old(self).bytes().len() ==> r == Err::<u16, Error>(
                Error::TruncatedInput,
            ) && final(self).position() == old(self).position(),
    {
        match self.read_fixed_bytes(2) {
            Ok(field) => Ok(read_u16_le(field)),
            Err(e) => Err(e),
        }
    }

    /// Consumes four bytes as an unsigned little-endian integer.
    pub fn read_u32_le(&mut self) -> (r: Result<u32, Error>)
        requires
            old(self).wf(),
        ensures
            final(self).wf(),
            final(self).bytes() == old(self).bytes(),
            old(self).position() + 4 <= old(self).bytes().len() ==> r is Ok
                && final(self).position() == old(self).position() + 4 && r->Ok_0 as int == le_u32(
                old(self).bytes(),
                old(self).position(),
            ),
            old(self).position() + 4 > old(self).bytes().len() ==> r == Err::<u32, Error>(
                Error::TruncatedInput,
            ) && final(self).position() == old(self).position(),
    {
        match self.read_fixed_bytes(4) {
            Ok(field) => Ok(read_u32_le(field)),
            Err(e) => Err(e),
        }
    }

    /// Consumes four bytes as a signed little-endian integer.
    pub fn read_i32_le(&mut self) -> (r: Result<i32, Error>)
        requires
            old(self).wf(),
        ensures
            final(self).wf(),
            final(self).bytes() == old(self).bytes(),
            old(self).position() + 4 <= old(self).bytes().len() ==> r is Ok
                && final(self).position() == old(self).position() + 4 && r->Ok_0 as int == le_i32(
                old(self).bytes(),
                old(self).position(),
            ),
            old(self).position() + 4 > old(self).bytes().len() ==> r == Err::<i32, Error>(
                Error::TruncatedInput,
            ) && final(self).position() == old(self).position(),
    {
        match self.read_fixed_bytes(4) {
            Ok(field) => Ok(read_i32_le(field)),
            Err(e) => Err(e),
        }
    }
}

} // verus!
