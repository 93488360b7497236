//! An in-memory seekable byte stream.
//!
//! Stages that need random access to raw bytes (header parsing with
//! look-ahead, header rewriting with backtracking) work against this stream;
//! the surrounding program loads it from, and drains it to, whatever medium
//! actually stores the bytes.

use vstd::prelude::*;

use crate::Error;

verus! {

/// The value of the little-endian 16-bit word formed by two bytes.
pub open spec fn le16(b0: u8, b1: u8) -> int {
    b0 + b1 * 0x100
}

/// The value of the little-endian 32-bit word formed by four bytes.
pub open spec fn le32(b0: u8, b1: u8, b2: u8, b3: u8) -> int {
    b0 + b1 * 0x100 + b2 * 0x1_0000 + b3 * 0x100_0000
}

/// A fixed byte sequence with a read/write cursor that can be repositioned.
pub struct ByteStream {
    data: Vec<u8>,
    pos: usize,
}

impl ByteStream {
    /// The bytes the stream holds.
    pub closed spec fn bytes(&self) -> Seq<u8> {
        self.data@
    }

    /// The cursor, always within `0 ..= bytes().len()`.
    pub closed spec fn spec_pos(&self) -> int {
        self.pos as int
    }

    pub open spec fn wf(&self) -> bool {
        0 <= self.spec_pos() <= self.bytes().len()
    }

    /// Opens a stream over `data` with the cursor at the start.
    pub fn new(data: Vec<u8>) -> (r: Self)
        ensures
            r.bytes() == data@,
            r.spec_pos() == 0,
            r.wf(),
    {
        ByteStream { data, pos: 0 }
    }

    /// An empty stream, ready to be written.
    pub fn empty() -> (r: Self)
        ensures
            r.bytes() == Seq::<u8>::empty(),
            r.spec_pos() == 0,
            r.wf(),
    {
        ByteStream { data: Vec::new(), pos: 0 }
    }

    pub fn len(&self) -> (r: usize)
        ensures
            r == self.bytes().len(),
    {
        self.data.len()
    }

    pub fn position(&self) -> (r: usize)
        ensures
            r == self.spec_pos(),
    {
        self.pos
    }

    /// A borrow of all bytes the stream holds.
    pub fn get_ref(&self) -> (r: &Vec<u8>)
        ensures
            r@ == self.bytes(),
    {
        &self.data
    }

    /// Consumes the stream, yielding the bytes it holds.
    pub fn into_inner(self) -> (r: Vec<u8>)
        ensures
            r@ == self.bytes(),
    {
        self.data
    }

    /// Moves the cursor to the absolute offset `pos`. Seeking past the end
    /// of the stream is refused.
    pub fn seek(&mut self, pos: usize) -> (r: Result<(), Error>)
        requires
            old(self).wf(),
        ensures
            r is Ok <==> pos <= old(self).bytes().len(),
            final(self).bytes() == old(self).bytes(),
            r is Ok ==> final(self).spec_pos() == pos,
            r is Err ==> *final(self) == *old(self) && r == Err::<(), Error>(Error::InvalidParameter),
            final(self).wf(),
    {
        if pos <= self.data.len() {
            self.pos = pos;
            Ok(())
        } else {
            Err(Error::InvalidParameter)
        }
    }

    /// Advances the cursor by `n` bytes. Skipping past the end is refused.
    pub fn skip(&mut self, n: usize) -> (r: Result<(), Error>)
        requires
            old(self).wf(),
        ensures
            r is Ok <==> old(self).spec_pos() + n <= old(self).bytes().len(),
            final(self).bytes() == old(self).bytes(),
            r is Ok ==> final(self).spec_pos() == old(self).spec_pos() + n,
            r is Err ==> *final(self) == *old(self) && r == Err::<(), Error>(Error::InvalidParameter),
            final(self).wf(),
    {
        if n <= self.data.len() - self.pos {
            self.pos = self.pos + n;
            Ok(())
        } else {
            Err(Error::InvalidParameter)
        }
    }

    /// How many bytes remain between the cursor and the end of the stream.
    pub fn remaining(&self) -> (r: usize)
        requires
            self.wf(),
        ensures
            r == self.bytes().len() - self.spec_pos(),
    {
        self.data.len() - self.pos
    }

    /// Reads exactly `n` bytes at the cursor, advancing it. Fails without
    /// moving the cursor when fewer than `n` bytes remain.
    pub fn read_exact(&mut self, n: usize) -> (r: Result<Vec<u8>, Error>)
        requires
            old(self).wf(),
        ensures
            r is Ok <==> old(self).spec_pos() + n <= old(self).bytes().len(),
            final(self).bytes() == old(self).bytes(),
            r matches Ok(v) ==> {
                &&& v@ == old(self).bytes().subrange(old(self).spec_pos(), old(self).spec_pos() + n)
                &&& final(self).spec_pos() == old(self).spec_pos() + n
            },
            r is Err ==> *final(self) == *old(self) && r == Err::<Vec<u8>, Error>(Error::DeviceError),
            final(self).wf(),
    {
        if n > self.data.len() - self.pos {
            return Err(Error::DeviceError);
        }
        let len = self.data.len();
        let mut out: Vec<u8> = Vec::new();
        let mut i: usize = 0;
        while i < n
            invariant
                i <= n,
                len == self.data@.len(),
                self.pos + n <= len,
                out@.len() == i,
                forall|j: int| 0 <= j < i ==> out@[j] == self.data@[self.pos + j],
                *self == *old(self),
            decreases n - i,
        {
            let b = self.data[self.pos + i];
            out.push(b);
            i = i + 1;
        }
        proof {
            assert(out@ =~= old(self).bytes().subrange(
                old(self).spec_pos(),
                old(self).spec_pos() + n,
            ));
        }
        self.pos = self.pos + n;
        Ok(out)
    }

    /// Reads a little-endian 16-bit word at the cursor, advancing it.
    pub fn read_u16_le(&mut self) -> (r: Result<u16, Error>)
        requires
            old(self).wf(),
        ensures
            r is Ok <==> old(self).spec_pos() + 2 <= old(self).bytes().len(),
            final(self).bytes() == old(self).bytes(),
            r matches Ok(v) ==> {
                &&& v == le16(
                    old(self).bytes()[old(self).spec_pos()],
                    old(self).bytes()[old(self).spec_pos() + 1],
                )
                &&& final(self).spec_pos() == old(self).spec_pos() + 2
            },
            r is Err ==> *final(self) == *old(self) && r == Err::<u16, Error>(Error::DeviceError),
            final(self).wf(),
    {
        if 2 > self.data.len() - self.pos {
            return Err(Error::DeviceError);
        }
        let b0 = self.data[self.pos];
        let b1 = self.data[self.pos + 1];
        self.pos = self.pos + 2;
        Ok(b0 as u16 + b1 as u16 * 0x100)
    }

    /// Reads a little-endian 32-bit word at the cursor, advancing it.
    pub fn read_u32_le(&mut self) -> (r: Result<u32, Error>)
        requires
            old(self).wf(),
        ensures
            r is Ok <==> old(self).spec_pos() + 4 <= old(self).bytes().len(),
            final(self).bytes() == old(self).bytes(),
            r matches Ok(v) ==> {
                &&& v == le32(
                    old(self).bytes()[old(self).spec_pos()],
                    old(self).bytes()[old(self).spec_pos() + 1],
                    old(self).bytes()[old(self).spec_pos() + 2],
                    old(self).bytes()[old(self).spec_pos() + 3],
                )
                &&& final(self).spec_pos() == old(self).spec_pos() + 4
            },
            r is Err ==> *final(self) == *old(self) && r == Err::<u32, Error>(Error::DeviceError),
            final(self).wf(),
    {
        if 4 > self.data.len() - self.pos {
            return Err(Error::DeviceError);
        }
        let b0 = self.data[self.pos];
        let b1 = self.data[self.pos + 1];
        let b2 = self.data[self.pos + 2];
        let b3 = self.data[self.pos + 3];
        self.pos = self.pos + 4;
        Ok(b0 as u32 + b1 as u32 * 0x100 + b2 as u32 * 0x1_0000 + b3 as u32 * 0x100_0000)
    }

    /// Writes `src` at the cursor, overwriting what is there and extending
    /// the stream when the write runs past its end; the cursor advances
    /// past the written bytes.
    pub fn write_bytes(&mut self, src: &[u8]) -> (r: Result<(), Error>)
        requires
            old(self).wf(),
        ensures
            r is Ok,
            final(self).bytes().len() == vstd::math::max(
                old(self).bytes().len() as int,
                old(self).spec_pos() + src@.len(),
            ),
            forall|j: int| 0 <= j < old(self).spec_pos() ==> final(self).bytes()[j] == old(self).bytes()[j],
            forall|j: int|
                old(self).spec_pos() <= j < old(self).spec_pos() + src@.len()
                    ==> final(self).bytes()[j] == src@[j - old(self).spec_pos()],
            forall|j: int|
                old(self).spec_pos() + src@.len() <= j < old(self).bytes().len()
                    ==> final(self).bytes()[j] == old(self).bytes()[j],
            final(self).spec_pos() == old(self).spec_pos() + src@.len(),
            final(self).wf(),
    {
        let n = src.len();
        let start = self.pos;
        let mut i: usize = 0;
        while i < n
            invariant
                i <= n,
                n == src@.len(),
                start == old(self).spec_pos(),
                self.pos == start,
                self.data@.len() == vstd::math::max(old(self).bytes().len() as int, start + i),
                forall|j: int| 0 <= j < start ==> self.data@[j] == old(self).bytes()[j],
                forall|j: int| start <= j < start + i ==> self.data@[j] == src@[j - start],
                forall|j: int|
                    start + i <= j < old(self).bytes().len() ==> self.data@[j] == old(self).bytes()[j],
            decreases n - i,
        {
            let b = *vstd::slice::slice_index_get(src, i);
            let filled = self.data.len();
            proof {
                assert(start + i <= filled);
            }
            if start + i < filled {
                self.data[start + i] = b;
            } else {
                self.data.push(b);
            }
            i = i + 1;
        }
        let filled = self.data.len();
        proof {
            assert(start + n <= filled);
        }
        self.pos = start + n;
        Ok(())
    }

    /// Writes a little-endian 32-bit word at the cursor.
    pub fn write_u32_le(&mut self, v: u32) -> (r: Result<(), Error>)
        requires
            old(self).wf(),
        ensures
            r is Ok,
            final(self).bytes().len() == vstd::math::max(
                old(self).bytes().len() as int,
                old(self).spec_pos() + 4,
            ),
            forall|j: int| 0 <= j < old(self).spec_pos() ==> final(self).bytes()[j] == old(self).bytes()[j],
            le32(
                final(self).bytes()[old(self).spec_pos()],
                final(self).bytes()[old(self).spec_pos() + 1],
                final(self).bytes()[old(self).spec_pos() + 2],
                final(self).bytes()[old(self).spec_pos() + 3],
            ) == v,
            forall|j: int|
                old(self).spec_pos() + 4 <= j < old(self).bytes().len()
                    ==> final(self).bytes()[j] == old(self).bytes()[j],
            final(self).spec_pos() == old(self).spec_pos() + 4,
            final(self).wf(),
    {
        let b0 = (v % 0x100) as u8;
        let b1 = (v / 0x100 % 0x100) as u8;
        let b2 = (v / 0x1_0000 % 0x100) as u8;
        let b3 = (v / 0x100_0000) as u8;
        let bytes: [u8; 4] = [b0, b1, b2, b3];
        let r = self.write_bytes(bytes.as_slice());
        proof {
            assert(le32(b0, b1, b2, b3) == v) by (nonlinear_arith)
                requires
                    b0 == v % 0x100,
                    b1 == v / 0x100 % 0x100,
                    b2 == v / 0x1_0000 % 0x100,
                    b3 == v / 0x100_0000,
                    v <= u32::MAX;
        }
        r
    }
}

} // verus!
