//! Role-restricted access to a shared data bus.
//!
//! A stage reaches its neighbour through one of three capabilities —
//! consuming chunks, producing chunks, or transforming them in place — and
//! can only perform the operations of the role it negotiated.

use vstd::prelude::*;

use crate::payload::Payload;
use crate::slot::{Slot, State};
use crate::Error;

verus! {

/// The operation a stage registers for on a data bus.
#[derive(Debug, Clone, Copy, PartialEq, Eq, Structural)]
pub enum Operation {
    Read,
    Write,
    InPlace,
}

/// Anything that hands chunks over through acquire/release pairs.
pub trait Databus {
    /// The bus's internal consistency; every operation preserves it.
    spec fn bus_wf(&self) -> bool;
}

/// A component from which audio data can be read chunk by chunk.
///
/// `acquire_read` grants a payload once a chunk is available; the payload
/// must be handed back through `release_read`, which frees the buffer for
/// the producer again.
pub trait Consumer: Databus {
    fn acquire_read(&mut self) -> (r: Result<Payload, Error>)
        requires
            old(self).bus_wf(),
        ensures
            final(self).bus_wf(),
    ;

    fn release_read(&mut self, payload: Payload) -> (r: Result<(), Error>)
        requires
            old(self).bus_wf(),
        ensures
            final(self).bus_wf(),
    ;
}

/// A component into which audio data can be written chunk by chunk.
///
/// `acquire_write` grants a payload once buffer space is available; the
/// payload must be handed back through `release_write`, which publishes the
/// chunk to the consumer.
pub trait Producer: Databus {
    fn acquire_write(&mut self) -> (r: Result<Payload, Error>)
        requires
            old(self).bus_wf(),
        ensures
            final(self).bus_wf(),
    ;

    fn release_write(&mut self, payload: Payload) -> (r: Result<(), Error>)
        requires
            old(self).bus_wf(),
        ensures
            final(self).bus_wf(),
    ;
}

/// A component whose chunks can be modified in place without being consumed.
pub trait Transformer: Databus {
    fn acquire_transform(&mut self) -> (r: Result<Payload, Error>)
        requires
            old(self).bus_wf(),
        ensures
            final(self).bus_wf(),
    ;

    fn release_transform(&mut self, payload: Payload) -> (r: Result<(), Error>)
        requires
            old(self).bus_wf(),
        ensures
            final(self).bus_wf(),
    ;
}

impl Databus for Slot {
    open spec fn bus_wf(&self) -> bool {
        self.wf()
    }
}

impl Consumer for Slot {
    fn acquire_read(&mut self) -> (r: Result<Payload, Error>)
        ensures
            r is Ok <==> old(self).spec_state() == State::Full,
            r matches Ok(p) ==> crate::slot::acquire_read_grants(*old(self), *final(self), p),
            r is Err ==> *final(self) == *old(self),
            r matches Err(e) ==> e == (if old(self).spec_state() == State::NoneBuffer {
                Error::InvalidState
            } else {
                Error::Busy
            }),
    {
        Slot::acquire_read(self)
    }

    fn release_read(&mut self, payload: Payload) -> (r: Result<(), Error>)
        ensures
            r is Ok <==> old(self).spec_state() == State::Reading && !payload.is_write,
            r is Ok ==> crate::slot::release_read_stores(*old(self), *final(self), payload),
            r is Err ==> *final(self) == *old(self),
    {
        if payload.is_write {
            return Err(Error::InvalidState);
        }
        Slot::release(self, payload)
    }
}

impl Producer for Slot {
    fn acquire_write(&mut self) -> (r: Result<Payload, Error>)
        ensures
            r is Ok <==> old(self).spec_state() == State::Empty,
            r matches Ok(p) ==> crate::slot::acquire_write_grants(*old(self), *final(self), p),
            r is Err ==> *final(self) == *old(self),
            r matches Err(e) ==> e == (if old(self).spec_state() == State::NoneBuffer {
                Error::InvalidState
            } else {
                Error::Busy
            }),
    {
        Slot::acquire_write(self)
    }

    fn release_write(&mut self, payload: Payload) -> (r: Result<(), Error>)
        ensures
            r is Ok <==> old(self).spec_state() == State::Writing && payload.is_write,
            r is Ok ==> crate::slot::release_write_stores(*old(self), *final(self), payload),
            r is Err ==> *final(self) == *old(self),
    {
        if !payload.is_write {
            return Err(Error::InvalidState);
        }
        Slot::release(self, payload)
    }
}

impl Transformer for Slot {
    fn acquire_transform(&mut self) -> (r: Result<Payload, Error>)
        ensures
            r is Ok <==> old(self).spec_state() == State::Full,
            r matches Ok(p) ==> crate::slot::acquire_read_grants(*old(self), *final(self), p),
            r is Err ==> *final(self) == *old(self),
            r matches Err(e) ==> e == (if old(self).spec_state() == State::NoneBuffer {
                Error::InvalidState
            } else {
                Error::Busy
            }),
    {
        Slot::acquire_read(self)
    }

    fn release_transform(&mut self, payload: Payload) -> (r: Result<(), Error>)
        ensures
            r is Ok <==> old(self).spec_state() == State::Reading && !payload.is_write,
            r is Ok ==> crate::slot::release_transform_stores(*old(self), *final(self), payload),
            r is Err ==> *final(self) == *old(self),
    {
        Slot::release_transform(self, payload)
    }
}

} // verus!
