//! One chunk's worth of bytes together with its framing metadata, held as a
//! scoped guard while exactly one party owns the buffer.

use vstd::prelude::*;

verus! {

/// Position of a chunk within a logical stream.
///
/// Over one stream either a lone `Single` chunk is emitted, or exactly one
/// `First`, zero or more `Middle` and exactly one `Last`, in that order.
#[derive(Debug, Clone, Copy, PartialEq, Eq, Structural)]
pub enum Position {
    /// Single complete payload (not part of a sequence)
    Single,
    /// First payload in a sequence
    First,
    /// Last payload in a sequence
    Last,
    /// Middle payload in a sequence
    Middle,
}

/// Metadata for payload data: its framing position and how many of the
/// buffer's bytes are valid.
#[derive(Debug, Clone, Copy, PartialEq, Eq, Structural)]
pub struct Metadata {
    /// Position of this payload in a sequence
    pub position: Position,
    /// Length of valid data in the payload buffer
    pub valid_length: usize,
}

impl Metadata {
    pub fn new(position: Position, valid_length: usize) -> (r: Self)
        ensures
            r == (Metadata { position, valid_length }),
    {
        Metadata { position, valid_length }
    }
}

impl Default for Metadata {
    /// Fresh metadata before anything was stored: zero valid bytes, so the
    /// position cannot be mistaken for real data.
    fn default() -> (r: Self)
        ensures
            r == (Metadata { position: Position::Middle, valid_length: 0 }),
    {
        Metadata { position: Position::Middle, valid_length: 0 }
    }
}

/// A scoped guard over one buffer and its metadata.
///
/// A payload is handed out by a slot when the slot grants exclusive access,
/// and must be returned to the slot through the matching release operation;
/// the slot then advances its state machine and stores the metadata the
/// holder left here.
#[derive(Debug)]
pub struct Payload {
    /// The buffer this payload exclusively holds.
    pub data: Vec<u8>,
    /// Metadata about this payload.
    pub metadata: Metadata,
    /// Whether the holder acquired the buffer for writing.
    pub is_write: bool,
}

impl Payload {
    /// The metadata never claims more valid bytes than the buffer holds.
    pub open spec fn wf(&self) -> bool {
        self.metadata.valid_length <= self.data@.len()
    }

    /// Creates a new payload over `data` with the given metadata and role.
    pub fn new(data: Vec<u8>, metadata: Metadata, is_write: bool) -> (r: Self)
        ensures
            r.data == data,
            r.metadata.position == metadata.position,
            r.metadata.valid_length == vstd::math::min(metadata.valid_length as int, data@.len() as int),
            r.is_write == is_write,
            r.wf(),
    {
        let len = data.len();
        let valid_length = if metadata.valid_length < len { metadata.valid_length } else { len };
        Payload { data, metadata: Metadata { position: metadata.position, valid_length }, is_write }
    }

    /// The capacity of the held buffer, in bytes.
    pub fn len(&self) -> (r: usize)
        ensures
            r == self.data@.len(),
    {
        self.data.len()
    }

    pub fn is_empty(&self) -> (r: bool)
        ensures
            r == (self.data@.len() == 0),
    {
        self.data.len() == 0
    }

    /// Updates the valid length, clamping it so it never exceeds the
    /// buffer's capacity.
    pub fn set_valid_length(&mut self, length: usize)
        ensures
            final(self).metadata.valid_length
                == vstd::math::min(length as int, old(self).data@.len() as int),
            final(self).metadata.position == old(self).metadata.position,
            final(self).data == old(self).data,
            final(self).is_write == old(self).is_write,
            final(self).wf(),
    {
        let len = self.data.len();
        self.metadata.valid_length = if length < len { length } else { len };
    }

    /// Updates the position tag in the metadata.
    pub fn set_position(&mut self, position: Position)
        ensures
            final(self).metadata.position == position,
            final(self).metadata.valid_length == old(self).metadata.valid_length,
            final(self).data == old(self).data,
            final(self).is_write == old(self).is_write,
    {
        self.metadata.position = position;
    }

    /// Overwrites the bytes at `offset .. offset + src.len()` with `src`.
    pub fn write_bytes(&mut self, offset: usize, src: &[u8])
        requires
            offset + src@.len() <= old(self).data@.len(),
        ensures
            final(self).data@.len() == old(self).data@.len(),
            forall|i: int|
                offset <= i < offset + src@.len() ==> final(self).data@[i] == src@[i - offset],
            forall|i: int|
                0 <= i < old(self).data@.len() && !(offset <= i < offset + src@.len())
                    ==> final(self).data@[i] == old(self).data@[i],
            final(self).metadata == old(self).metadata,
            final(self).is_write == old(self).is_write,
    {
        let cap = self.data.len();
        let n = src.len();
        let mut i: usize = 0;
        while i < n
            invariant
                i <= n,
                n == src@.len(),
                cap == self.data@.len(),
                offset + src@.len() <= self.data@.len(),
                self.data@.len() == old(self).data@.len(),
                forall|j: int| offset <= j < offset + i ==> self.data@[j] == src@[j - offset],
                forall|j: int|
                    0 <= j < old(self).data@.len() && !(offset <= j < offset + i)
                        ==> self.data@[j] == old(self).data@[j],
                self.metadata == old(self).metadata,
                self.is_write == old(self).is_write,
            decreases src@.len() - i,
        {
            let b = *vstd::slice::slice_index_get(src, i);
            self.data[offset + i] = b;
            i = i + 1;
        }
    }

    /// Copies the byte range `from .. from + count` of `src`'s buffer into
    /// this payload at `to`.
    pub fn copy_within_from(&mut self, src: &Payload, from: usize, to: usize, count: usize)
        requires
            from + count <= src.data@.len(),
            to + count <= old(self).data@.len(),
        ensures
            final(self).data@.len() == old(self).data@.len(),
            forall|i: int| to <= i < to + count ==> final(self).data@[i] == src.data@[i - to + from],
            forall|i: int|
                0 <= i < old(self).data@.len() && !(to <= i < to + count)
                    ==> final(self).data@[i] == old(self).data@[i],
            final(self).metadata == old(self).metadata,
            final(self).is_write == old(self).is_write,
    {
        let cap = self.data.len();
        let src_cap = src.data.len();
        let mut i: usize = 0;
        while i < count
            invariant
                i <= count,
                cap == self.data@.len(),
                src_cap == src.data@.len(),
                from + count <= src.data@.len(),
                to + count <= self.data@.len(),
                self.data@.len() == old(self).data@.len(),
                forall|j: int| to <= j < to + i ==> self.data@[j] == src.data@[j - to + from],
                forall|j: int|
                    0 <= j < old(self).data@.len() && !(to <= j < to + i)
                        ==> self.data@[j] == old(self).data@[j],
                self.metadata == old(self).metadata,
                self.is_write == old(self).is_write,
            decreases count - i,
        {
            let b = src.data[from + i];
            self.data[to + i] = b;
            i = i + 1;
        }
    }
}

} // verus!
