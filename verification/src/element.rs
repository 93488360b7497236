//! The stage lifecycle protocol: every pipeline stage advances through
//! initialize / process / reset, and tags each emitted chunk with its
//! position in the stream.

use vstd::prelude::*;

use crate::info::Info;
use crate::payload::Position;
use crate::port::{InPlacePort, InPort, OutPort, PortRequirements};
use crate::Error;

verus! {

/// Where a stage stands in its lifecycle.
#[derive(Debug, Clone, Copy, PartialEq, Eq, Structural)]
pub enum Phase {
    /// Created, formats and requirements not negotiated yet.
    Uninitialized,
    /// Negotiated and ready to process (also the state after reset/flush).
    Initialized,
    /// Has processed at least one chunk and may produce more.
    Running,
    /// Has emitted or consumed its terminal chunk.
    Stopped,
}

/// What one bounded unit of work reported.
#[derive(Debug, Clone, Copy, PartialEq, Eq, Structural)]
pub enum ProcessStatus {
    /// More data may follow.
    Fine,
    /// The chunk just handled was terminal; the stage has stopped.
    Eof,
}

/// The position tag for a chunk, from the two facts a stage tracks: whether
/// nothing was emitted before it, and whether nothing remains after it.
///
/// | first | last  | tag    |
/// |-------|-------|--------|
/// | yes   | yes   | Single |
/// | yes   | no    | First  |
/// | no    | yes   | Last   |
/// | no    | no    | Middle |
pub open spec fn position_tag(is_first: bool, is_last: bool) -> Position {
    if is_first && is_last {
        Position::Single
    } else if is_first {
        Position::First
    } else if is_last {
        Position::Last
    } else {
        Position::Middle
    }
}

/// A terminal tag ends the stream: exactly `Single` and `Last` are terminal.
pub open spec fn is_terminal(p: Position) -> bool {
    p == Position::Single || p == Position::Last
}

/// Computes the position tag of the table above.
pub fn tag_position(is_first: bool, is_last: bool) -> (r: Position)
    ensures
        r == position_tag(is_first, is_last),
{
    match (is_first, is_last) {
        (true, true) => Position::Single,
        (true, false) => Position::First,
        (false, true) => Position::Last,
        (false, false) => Position::Middle,
    }
}

/// The tags a stage emits over a stream of `k` chunks, when no data remains
/// after the `k`-th: the `i`-th chunk is first exactly when `i == 0` and
/// last exactly when it is the `k - 1`-th.
pub open spec fn stream_tags(k: nat) -> Seq<Position> {
    Seq::new(k, |i: int| position_tag(i == 0, i == k - 1))
}

/// Law: position sequencing. Over any stream of `k >= 1` chunks, a stage
/// following the tagging table emits exactly one `Single` when the stream
/// has one chunk, and otherwise `First`, then `k - 2` times `Middle`, then
/// `Last` — in that order, with no repetition of the terminal tags.
pub proof fn lemma_position_sequencing(k: nat)
    requires
        k >= 1,
    ensures
        stream_tags(k).len() == k,
        k == 1 ==> stream_tags(k)[0] == Position::Single,
        k > 1 ==> stream_tags(k)[0] == Position::First,
        k > 1 ==> stream_tags(k)[k - 1] == Position::Last,
        forall|i: int| 0 < i < k - 1 ==> stream_tags(k)[i] == Position::Middle,
        forall|i: int| 0 <= i < k ==> (is_terminal(stream_tags(k)[i]) <==> i == k - 1),
{
}

/// One unit of an audio processing pipeline.
///
/// A stage is created `Uninitialized`, negotiates its connections in
/// `initialize`, performs one bounded unit of work per `process` call, and
/// stops once it has handled its terminal chunk; `reset` and `flush`
/// return it to `Initialized`, discarding in-flight progress.
pub trait Element {
    /// Where the stage stands in its lifecycle.
    spec fn phase(&self) -> Phase;

    /// The stage's internal consistency; constructors establish it and
    /// every lifecycle operation preserves it.
    spec fn wf(&self) -> bool;

    /// The negotiated upstream format, if any.
    fn get_in_info(&self) -> Option<Info>;

    /// The negotiated downstream format, if any.
    fn get_out_info(&self) -> Option<Info>;

    /// The stage's declared connection needs; valid only after
    /// `initialize`, before which it fails with `InvalidState`.
    fn get_port_requirements(&self) -> (r: Result<PortRequirements, Error>)
        requires
            self.wf(),
        ensures
            r is Ok <==> self.phase() != Phase::Uninitialized,
            r is Err ==> r == Err::<PortRequirements, Error>(Error::InvalidState),
    ;

    /// Negotiates the stage's connections from the upstream format and
    /// fixes its own output format for the remainder of its life.
    fn initialize(&mut self, upstream_info: Option<Info>) -> (r: Result<PortRequirements, Error>)
        requires
            old(self).wf(),
        ensures
            final(self).wf(),
            r is Ok ==> final(self).phase() == Phase::Initialized,
            old(self).phase() != Phase::Uninitialized ==> r == Err::<PortRequirements, Error>(
                Error::InvalidState,
            ),
    ;

    /// Performs exactly one bounded unit of work: at most one input
    /// acquisition and/or one output acquisition, a transform / copy /
    /// emission of data, and a position tag on any emitted chunk. Outside
    /// `Initialized`/`Running` the call is a contract violation and fails
    /// with `InvalidState`.
    fn process(
        &mut self,
        in_port: &mut InPort,
        out_port: &mut OutPort,
        inplace_port: &mut InPlacePort,
    ) -> (r: Result<ProcessStatus, Error>)
        requires
            old(self).wf(),
            old(in_port).wf(),
            old(out_port).wf(),
            old(inplace_port).wf(),
        ensures
            final(self).wf(),
            final(in_port).wf(),
            final(out_port).wf(),
            final(inplace_port).wf(),
            !(old(self).phase() == Phase::Initialized || old(self).phase() == Phase::Running)
                ==> r == Err::<ProcessStatus, Error>(Error::InvalidState),
            r == Ok::<ProcessStatus, Error>(ProcessStatus::Eof) ==> final(self).phase()
                == Phase::Stopped,
    ;

    /// Returns the stage to `Initialized`, discarding in-flight progress.
    fn reset(&mut self) -> (r: Result<(), Error>)
        requires
            old(self).wf(),
        ensures
            final(self).wf(),
            r is Ok ==> final(self).phase() == Phase::Initialized,
            old(self).phase() == Phase::Uninitialized ==> r == Err::<(), Error>(Error::InvalidState),
    ;

    /// Like `reset`, and additionally asks downstream stages to drop any
    /// buffered chunk.
    fn flush(&mut self) -> (r: Result<(), Error>)
        requires
            old(self).wf(),
        ensures
            final(self).wf(),
            r is Ok ==> final(self).phase() == Phase::Initialized,
            old(self).phase() == Phase::Uninitialized ==> r == Err::<(), Error>(Error::InvalidState),
    ;

    /// Approximate remaining input units or free output capacity; advisory
    /// only.
    fn available(&self) -> u32;
}

} // verus!
