//! Typed connection points between adjacent stages, and the construction
//! time matching of their declared needs.

use vstd::prelude::*;

use crate::bytestream::ByteStream;
use crate::databus::{Consumer, Databus, Producer, Transformer};
use crate::payload::Payload;
use crate::slot::Slot;
use crate::Error;

verus! {

/// What a stage needs on one side of a connection.
#[derive(Debug, Clone, Copy, PartialEq, Eq, Structural)]
pub enum PortRequirement {
    /// No connection needed on this side.
    Unused,
    /// A raw seekable byte stream (e.g. for header rewriting).
    IO,
    /// A slot-backed connection whose buffer holds at least this many bytes.
    Payload(u32),
}

/// A stage's declared needs: its input side, its output side, and, for a
/// stage that rewrites chunks without consuming them, the minimum chunk
/// size of its in-place connection.
#[derive(Debug, Clone, Copy, PartialEq, Eq, Structural)]
pub struct PortRequirements {
    pub in_: PortRequirement,
    pub out: PortRequirement,
    pub in_place: Option<u32>,
}

impl PortRequirements {
    /// A stage with no connections at all.
    pub fn new_none() -> (r: Self)
        ensures
            r == (PortRequirements {
                in_: PortRequirement::Unused,
                out: PortRequirement::Unused,
                in_place: None::<u32>,
            }),
    {
        PortRequirements { in_: PortRequirement::Unused, out: PortRequirement::Unused, in_place: None }
    }

    /// A source: produces chunks of at least `min_size` bytes downstream.
    pub fn source(min_size: u32) -> (r: Self)
        ensures
            r == (PortRequirements {
                in_: PortRequirement::Unused,
                out: PortRequirement::Payload(min_size),
                in_place: None::<u32>,
            }),
    {
        PortRequirements {
            in_: PortRequirement::Unused,
            out: PortRequirement::Payload(min_size),
            in_place: None,
        }
    }

    /// A sink: consumes chunks of at least `min_size` bytes from upstream.
    pub fn sink(min_size: u32) -> (r: Self)
        ensures
            r == (PortRequirements {
                in_: PortRequirement::Payload(min_size),
                out: PortRequirement::Unused,
                in_place: None::<u32>,
            }),
    {
        PortRequirements {
            in_: PortRequirement::Payload(min_size),
            out: PortRequirement::Unused,
            in_place: None,
        }
    }

    /// A transformer: rewrites chunks of at least `min_size` bytes in place.
    pub fn new_in_place(min_size: u32) -> (r: Self)
        ensures
            r == (PortRequirements {
                in_: PortRequirement::Unused,
                out: PortRequirement::Unused,
                in_place: Some(min_size),
            }),
    {
        PortRequirements {
            in_: PortRequirement::Unused,
            out: PortRequirement::Unused,
            in_place: Some(min_size),
        }
    }
}

/// The connection the assembler builds between two adjacent stages.
#[derive(Debug, Clone, Copy, PartialEq, Eq, Structural)]
pub enum Link {
    /// The stages are not connected on this side.
    Unused,
    /// The stages share a raw seekable byte stream.
    Raw,
    /// The stages share a slot whose buffer holds at least this many bytes.
    Slot(u32),
}

/// Matches an upstream stage's out-side against its downstream neighbour's
/// in-side. Compatible payload sides yield a slot sized to at least both
/// minima; a mismatch is a construction-time error (`Unsupported`), never
/// deferred to a runtime failure inside `process`.
pub fn negotiate(upstream_out: &PortRequirement, downstream_in: &PortRequirement) -> (r: Result<
    Link,
    Error,
>)
    ensures
        r == (match (*upstream_out, *downstream_in) {
            (PortRequirement::Unused, PortRequirement::Unused) => Ok::<Link, Error>(Link::Unused),
            (PortRequirement::IO, PortRequirement::IO) => Ok::<Link, Error>(Link::Raw),
            (PortRequirement::Payload(a), PortRequirement::Payload(b)) => Ok::<Link, Error>(
                Link::Slot(vstd::math::max(a as int, b as int) as u32),
            ),
            _ => Err::<Link, Error>(Error::Unsupported),
        }),
{
    match (upstream_out, downstream_in) {
        (PortRequirement::Unused, PortRequirement::Unused) => Ok(Link::Unused),
        (PortRequirement::IO, PortRequirement::IO) => Ok(Link::Raw),
        (PortRequirement::Payload(a), PortRequirement::Payload(b)) => Ok(
            Link::Slot(if *a > *b { *a } else { *b }),
        ),
        _ => Err(Error::Unsupported),
    }
}

/// The input side handed to a stage's `process`.
pub enum InPort {
    /// The stage needs no input.
    Unused,
    /// A raw seekable byte stream.
    Reader(ByteStream),
    /// A slot the stage consumes chunks from.
    Consumer(Slot),
}

impl InPort {
    /// Whatever the port carries is internally consistent.
    pub open spec fn wf(&self) -> bool {
        match self {
            InPort::Unused => true,
            InPort::Reader(stream) => stream.wf(),
            InPort::Consumer(slot) => slot.wf(),
        }
    }

    pub fn new_none() -> (r: Self)
        ensures
            r is Unused,
            r.wf(),
    {
        InPort::Unused
    }
}

/// The output side handed to a stage's `process`.
pub enum OutPort {
    /// The stage needs no output.
    Unused,
    /// A raw seekable byte stream.
    Writer(ByteStream),
    /// A slot the stage produces chunks into.
    Producer(Slot),
}

impl OutPort {
    /// Whatever the port carries is internally consistent.
    pub open spec fn wf(&self) -> bool {
        match self {
            OutPort::Unused => true,
            OutPort::Writer(stream) => stream.wf(),
            OutPort::Producer(slot) => slot.wf(),
        }
    }

    pub fn new_none() -> (r: Self)
        ensures
            r is Unused,
            r.wf(),
    {
        OutPort::Unused
    }
}

/// The in-place side handed to a stage's `process`.
pub enum InPlacePort {
    /// The stage transforms nothing in place.
    Unused,
    /// A slot whose full chunk the stage may rewrite in place.
    Transformer(Slot),
}

impl InPlacePort {
    /// Whatever the port carries is internally consistent.
    pub open spec fn wf(&self) -> bool {
        match self {
            InPlacePort::Unused => true,
            InPlacePort::Transformer(slot) => slot.wf(),
        }
    }

    pub fn new_none() -> (r: Self)
        ensures
            r is Unused,
            r.wf(),
    {
        InPlacePort::Unused
    }
}

/// A dummy bus that supports no operation; it stands where a port is
/// required by a signature but no data will ever flow.
pub struct Dmy;

impl Databus for Dmy {
    open spec fn bus_wf(&self) -> bool {
        true
    }
}

impl Consumer for Dmy {
    fn acquire_read(&mut self) -> (r: Result<Payload, Error>)
        ensures
            r == Err::<Payload, Error>(Error::Unsupported),
    {
        Err(Error::Unsupported)
    }

    fn release_read(&mut self, payload: Payload) -> (r: Result<(), Error>)
        ensures
            r == Err::<(), Error>(Error::Unsupported),
    {
        Err(Error::Unsupported)
    }
}

impl Producer for Dmy {
    fn acquire_write(&mut self) -> (r: Result<Payload, Error>)
        ensures
            r == Err::<Payload, Error>(Error::Unsupported),
    {
        Err(Error::Unsupported)
    }

    fn release_write(&mut self, payload: Payload) -> (r: Result<(), Error>)
        ensures
            r == Err::<(), Error>(Error::Unsupported),
    {
        Err(Error::Unsupported)
    }
}

impl Transformer for Dmy {
    fn acquire_transform(&mut self) -> (r: Result<Payload, Error>)
        ensures
            r == Err::<Payload, Error>(Error::Unsupported),
    {
        Err(Error::Unsupported)
    }

    fn release_transform(&mut self, payload: Payload) -> (r: Result<(), Error>)
        ensures
            r == Err::<(), Error>(Error::Unsupported),
    {
        Err(Error::Unsupported)
    }
}

} // verus!
