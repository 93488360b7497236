//! The single-chunk synchronization core: a slot owns at most one buffer and
//! hands it to exactly one holder at a time.
//!
//! The slot's state field is the sole arbiter of access. Only four edges
//! change hands on a bound slot, and any other requested transition fails
//! without touching the slot:
//!
//! ```text
//! Empty   --acquire_write-->  Writing
//! Writing --release(write)--> Full
//! Full    --acquire_read-->   Reading
//! Reading --release(read)-->  Empty
//! ```
//!
//! An in-place transformer gives a chunk back unconsumed: its release
//! takes the `Reading --> Full` edge instead, so the rewritten chunk is
//! presented to the consumer in place of the original.
//!
//! A caller that is denied (`Error::Busy`) is expected to retry once its
//! peer has moved the slot on; the slot itself never blocks, so it can be
//! driven from any scheduler, cooperative or threaded.

use vstd::prelude::*;

use crate::payload::{Metadata, Payload, Position};
use crate::Error;

verus! {

/// The state of a [`Slot`], the core of the hand-off state machine.
#[derive(Debug, Clone, Copy, PartialEq, Eq, Structural)]
pub enum State {
    /// The slot is empty and ready for a producer to write to it.
    Empty,
    /// A consumer has acquired the slot and is currently reading from the buffer.
    Reading,
    /// A producer has acquired the slot and is currently writing to the buffer.
    Writing,
    /// The slot is full of data and ready for a consumer to read from it.
    Full,
    /// No buffer is bound, preventing any acquisition.
    NoneBuffer,
}

/// A single-slot channel passing one mutable buffer between one producer
/// and one consumer, without copying and without allocation per chunk.
///
/// The buffer is physically moved out of the slot exactly when entering
/// `Writing`/`Reading` and moved back exactly when the payload is released,
/// so at most one party ever holds it.
pub struct Slot {
    buffer: Option<Vec<u8>>,
    metadata: Option<Metadata>,
    state: State,
}

impl Slot {
    /// The current state of the hand-off machine.
    pub closed spec fn spec_state(&self) -> State {
        self.state
    }

    /// The bytes the slot currently owns, `None` while a holder has them
    /// (or while no buffer is bound).
    pub closed spec fn spec_buffer(&self) -> Option<Seq<u8>> {
        match self.buffer {
            Some(b) => Some(b@),
            None => None,
        }
    }

    /// The metadata stored by the last release, if any.
    pub closed spec fn spec_metadata(&self) -> Option<Metadata> {
        self.metadata
    }

    /// The slot owns a buffer exactly in the `Empty` and `Full` states, and
    /// whatever metadata it stores never claims more bytes than that buffer
    /// holds. `Full` always carries the releasing writer's metadata.
    pub open spec fn wf(&self) -> bool {
        &&& (self.spec_state() == State::Empty || self.spec_state() == State::Full)
            <==> self.spec_buffer() is Some
        &&& self.spec_state() == State::Full ==> self.spec_metadata() is Some
        &&& (self.spec_buffer() is Some && self.spec_metadata() is Some)
            ==> self.spec_metadata()->0.valid_length <= self.spec_buffer()->0.len()
    }

    /// Creates a new slot, initially managing the provided buffer.
    /// The slot starts in `Empty` if a buffer was provided, else `NoneBuffer`.
    pub fn new(buffer: Option<Vec<u8>>) -> (r: Self)
        ensures
            r.spec_state() == (if buffer is Some { State::Empty } else { State::NoneBuffer }),
            r.spec_buffer() == (match buffer {
                Some(b) => Some(b@),
                None => None::<Seq<u8>>,
            }),
            r.spec_metadata() is None,
            r.wf(),
    {
        let state = if buffer.is_some() { State::Empty } else { State::NoneBuffer };
        Slot { buffer, metadata: None, state }
    }

    /// The current state, for callers that schedule around the slot.
    pub fn get_state(&self) -> (r: State)
        ensures
            r == self.spec_state(),
    {
        self.state
    }

    /// The capacity of the buffer the slot currently owns, `None` while a
    /// holder has it or no buffer is bound.
    pub fn buffer_capacity(&self) -> (r: Option<usize>)
        ensures
            r is Some <==> self.spec_buffer() is Some,
            r matches Some(n) ==> n == self.spec_buffer()->0.len(),
    {
        match &self.buffer {
            Some(b) => Some(b.len()),
            None => None,
        }
    }

    /// The metadata stored by the last release, if any.
    pub fn get_current_metadata(&self) -> (r: Option<Metadata>)
        ensures
            r == self.spec_metadata(),
    {
        self.metadata
    }

    /// Rebinds the backing memory. Only an idle (`Empty`) slot may be
    /// rebound: anywhere else a chunk is in flight or already handed out,
    /// and the call fails with `InvalidState` leaving the slot untouched.
    /// Stale metadata is discarded together with the old buffer.
    pub fn set_buffer(&mut self, buffer: Option<Vec<u8>>) -> (r: Result<(), Error>)
        requires
            old(self).wf(),
        ensures
            r is Ok <==> old(self).spec_state() == State::Empty,
            r is Err ==> *final(self) == *old(self) && r == Err::<(), Error>(Error::InvalidState),
            r is Ok ==> {
                &&& final(self).spec_state() == (if buffer is Some {
                    State::Empty
                } else {
                    State::NoneBuffer
                })
                &&& final(self).spec_buffer() == (match buffer {
                    Some(b) => Some(b@),
                    None => None::<Seq<u8>>,
                })
                &&& final(self).spec_metadata() is None
            },
            final(self).wf(),
    {
        match self.state {
            State::Empty => {
                self.state = if buffer.is_some() { State::Empty } else { State::NoneBuffer };
                self.buffer = buffer;
                self.metadata = None;
                Ok(())
            },
            _ => Err(Error::InvalidState),
        }
    }

    /// Grants the buffer to the producer: `Empty --> Writing`, the buffer
    /// leaves the slot inside a write payload carrying cleared metadata.
    pub fn acquire_write(&mut self) -> (r: Result<Payload, Error>)
        requires
            old(self).wf(),
        ensures
            r is Ok <==> old(self).spec_state() == State::Empty,
            r matches Ok(p) ==> acquire_write_grants(*old(self), *final(self), p),
            r is Err ==> *final(self) == *old(self),
            r matches Err(e) ==> e == (if old(self).spec_state() == State::NoneBuffer {
                Error::InvalidState
            } else {
                Error::Busy
            }),
            final(self).wf(),
    {
        match self.state {
            State::Empty => {
                let buffer = match self.buffer.take() {
                    Some(b) => b,
                    None => {
                        proof {
                            assert(false);
                        }
                        Vec::new()
                    },
                };
                self.metadata = None;
                self.state = State::Writing;
                Ok(Payload { data: buffer, metadata: Metadata::default(), is_write: true })
            },
            State::NoneBuffer => Err(Error::InvalidState),
            _ => Err(Error::Busy),
        }
    }

    /// Grants the buffer to the consumer: `Full --> Reading`, the buffer
    /// leaves the slot inside a read payload exposing the stored metadata.
    pub fn acquire_read(&mut self) -> (r: Result<Payload, Error>)
        requires
            old(self).wf(),
        ensures
            r is Ok <==> old(self).spec_state() == State::Full,
            r matches Ok(p) ==> acquire_read_grants(*old(self), *final(self), p),
            r is Err ==> *final(self) == *old(self),
            r matches Err(e) ==> e == (if old(self).spec_state() == State::NoneBuffer {
                Error::InvalidState
            } else {
                Error::Busy
            }),
            final(self).wf(),
    {
        match self.state {
            State::Full => {
                let buffer = match self.buffer.take() {
                    Some(b) => b,
                    None => {
                        proof {
                            assert(false);
                        }
                        Vec::new()
                    },
                };
                let metadata = match self.metadata.take() {
                    Some(m) => m,
                    None => Metadata::default(),
                };
                self.state = State::Reading;
                Ok(Payload { data: buffer, metadata, is_write: false })
            },
            State::NoneBuffer => Err(Error::InvalidState),
            _ => Err(Error::Busy),
        }
    }

    /// Returns a payload to the slot: `Writing --> Full` for a write payload,
    /// `Reading --> Empty` for a read payload. The buffer and the payload's
    /// current metadata (its valid length clamped to the buffer's capacity)
    /// move back into the slot. A payload whose role does not match the
    /// slot's state is refused and the slot is left untouched.
    pub fn release(&mut self, payload: Payload) -> (r: Result<(), Error>)
        requires
            old(self).wf(),
        ensures
            r is Ok <==> (old(self).spec_state() == State::Writing && payload.is_write)
                || (old(self).spec_state() == State::Reading && !payload.is_write),
            r is Ok && payload.is_write ==> release_write_stores(*old(self), *final(self), payload),
            r is Ok && !payload.is_write ==> release_read_stores(*old(self), *final(self), payload),
            r is Err ==> *final(self) == *old(self) && r == Err::<(), Error>(Error::InvalidState),
            final(self).wf(),
    {
        let role_matches = if payload.is_write {
            matches!(self.state, State::Writing)
        } else {
            matches!(self.state, State::Reading)
        };
        if !role_matches {
            return Err(Error::InvalidState);
        }
        let Payload { data, metadata, is_write } = payload;
        let len = data.len();
        let clamped = if metadata.valid_length < len { metadata.valid_length } else { len };
        self.metadata = Some(Metadata { position: metadata.position, valid_length: clamped });
        self.buffer = Some(data);
        self.state = if is_write { State::Full } else { State::Empty };
        Ok(())
    }

    /// Returns a payload acquired for an in-place transform: the chunk was
    /// not consumed, so the slot moves `Reading --> Full` and the (possibly
    /// rewritten) chunk stays available to the consumer downstream.
    pub fn release_transform(&mut self, payload: Payload) -> (r: Result<(), Error>)
        requires
            old(self).wf(),
        ensures
            r is Ok <==> old(self).spec_state() == State::Reading && !payload.is_write,
            r is Ok ==> release_transform_stores(*old(self), *final(self), payload),
            r is Err ==> *final(self) == *old(self) && r == Err::<(), Error>(Error::InvalidState),
            final(self).wf(),
    {
        if payload.is_write || !matches!(self.state, State::Reading) {
            return Err(Error::InvalidState);
        }
        let Payload { data, metadata, is_write: _ } = payload;
        let len = data.len();
        let clamped = if metadata.valid_length < len { metadata.valid_length } else { len };
        self.metadata = Some(Metadata { position: metadata.position, valid_length: clamped });
        self.buffer = Some(data);
        self.state = State::Full;
        Ok(())
    }
}

/// Relation established by a successful [`Slot::acquire_write`]: the slot
/// moves `Empty --> Writing`, the producer receives exactly the slot's
/// buffer, and the metadata handed out is cleared (zero valid bytes).
pub open spec fn acquire_write_grants(pre: Slot, post: Slot, p: Payload) -> bool {
    &&& pre.spec_state() == State::Empty
    &&& post.spec_state() == State::Writing
    &&& post.spec_buffer() is None
    &&& post.spec_metadata() is None
    &&& Some(p.data@) == pre.spec_buffer()
    &&& p.metadata == (Metadata { position: Position::Middle, valid_length: 0 })
    &&& p.is_write
}

/// Relation established by a successful [`Slot::acquire_read`]: the slot
/// moves `Full --> Reading` and the consumer receives exactly the slot's
/// buffer together with the metadata stored by the releasing writer.
pub open spec fn acquire_read_grants(pre: Slot, post: Slot, p: Payload) -> bool {
    &&& pre.spec_state() == State::Full
    &&& post.spec_state() == State::Reading
    &&& post.spec_buffer() is None
    &&& post.spec_metadata() is None
    &&& Some(p.data@) == pre.spec_buffer()
    &&& Some(p.metadata) == pre.spec_metadata()
    &&& !p.is_write
}

/// Relation established by releasing a write payload: the slot moves
/// `Writing --> Full` and stores exactly the writer's bytes and metadata,
/// the valid length clamped to the buffer's capacity.
pub open spec fn release_write_stores(pre: Slot, post: Slot, p: Payload) -> bool {
    &&& pre.spec_state() == State::Writing
    &&& post.spec_state() == State::Full
    &&& post.spec_buffer() == Some(p.data@)
    &&& post.spec_metadata() == Some(
        Metadata {
            position: p.metadata.position,
            valid_length: vstd::math::min(p.metadata.valid_length as int, p.data@.len() as int) as usize,
        },
    )
}

/// Relation established by releasing a read payload: the slot moves
/// `Reading --> Empty` and owns the buffer again, ready for the producer.
pub open spec fn release_read_stores(pre: Slot, post: Slot, p: Payload) -> bool {
    &&& pre.spec_state() == State::Reading
    &&& post.spec_state() == State::Empty
    &&& post.spec_buffer() == Some(p.data@)
    &&& post.spec_metadata() == Some(
        Metadata {
            position: p.metadata.position,
            valid_length: vstd::math::min(p.metadata.valid_length as int, p.data@.len() as int) as usize,
        },
    )
}

/// Relation established by releasing a transform payload: the slot moves
/// `Reading --> Full`, so the transformed chunk is presented to the
/// consumer in place of the original.
pub open spec fn release_transform_stores(pre: Slot, post: Slot, p: Payload) -> bool {
    &&& pre.spec_state() == State::Reading
    &&& post.spec_state() == State::Full
    &&& post.spec_buffer() == Some(p.data@)
    &&& post.spec_metadata() == Some(
        Metadata {
            position: p.metadata.position,
            valid_length: vstd::math::min(p.metadata.valid_length as int, p.data@.len() as int) as usize,
        },
    )
}

/// Law: at most one party holds the buffer at any instant. Whenever a
/// holder has been granted access (`Writing` or `Reading`), the slot
/// itself no longer owns the bytes — they were physically moved into the
/// holder's payload, so a second grant has nothing to hand out until the
/// payload is released.
pub proof fn lemma_at_most_one_holder(s: Slot)
    requires
        s.wf(),
    ensures
        s.spec_state() == State::Writing || s.spec_state() == State::Reading ==> s.spec_buffer()
            is None,
{
}

/// Law: bytes observed on read equal exactly the bytes written in the
/// immediately preceding write — no loss, no duplication — for any buffer
/// length. Whatever payload `wp` a producer releases, the payload `rp` the
/// consumer acquires next carries the same bytes and the same framing
/// metadata.
pub proof fn lemma_handoff_exact(s1: Slot, s2: Slot, s3: Slot, wp: Payload, rp: Payload)
    requires
        wp.wf(),
        release_write_stores(s1, s2, wp),
        acquire_read_grants(s2, s3, rp),
    ensures
        rp.data@ == wp.data@,
        rp.metadata == wp.metadata,
{
}

/// Law: strict alternation. Once a producer has been granted the buffer,
/// the slot is no longer `Empty`, so a second `acquire_write` is refused
/// (and, the grant relations being chained the same way, stays refused
/// until a release and a full read cycle have brought the slot back to
/// `Empty`): the slot never double-grants `Writing`.
pub proof fn lemma_no_double_write_grant(s0: Slot, s1: Slot, p: Payload)
    requires
        acquire_write_grants(s0, s1, p),
    ensures
        s1.spec_state() != State::Empty,
{
}

/// Law: a write grant and the following release hand the very same buffer
/// back: the slot's capacity never changes across a write cycle in which
/// the producer only mutates bytes in place.
pub proof fn lemma_write_cycle_keeps_capacity(s0: Slot, s1: Slot, s2: Slot, p0: Payload, p1: Payload)
    requires
        acquire_write_grants(s0, s1, p0),
        p1.data@.len() == p0.data@.len(),
        release_write_stores(s1, s2, p1),
    ensures
        s2.spec_buffer() is Some,
        s2.spec_buffer()->0.len() == s0.spec_buffer()->0.len(),
{
}

} // verus!
