//! Pipeline plumbing: what a driver loop needs around the stages.

use vstd::prelude::*;

use crate::info::Info;
use crate::Error;

verus! {

/// A sink that accepts and discards everything; it stands in where a
/// pipeline type needs a writer but no data will be kept.
pub struct DummyWriter {}

impl DummyWriter {
    pub fn new() -> (r: Self)
        ensures
            true,
    {
        DummyWriter {  }
    }

    /// Accepts the whole buffer and discards it.
    pub fn write(&mut self, buf: &[u8]) -> (r: Result<usize, Error>)
        ensures
            r == Ok::<usize, Error>(buf@.len() as usize),
    {
        Ok(buf.len())
    }

    pub fn flush(&mut self) -> (r: Result<(), Error>)
        ensures
            r is Ok,
    {
        Ok(())
    }

    /// The discarding sink has no format of its own.
    pub fn get_info(&self) -> (r: Info)
        ensures
            r.sample_rate == 0 && r.channels == 0 && r.bits_per_sample == 0,
            r.num_frames is None,
    {
        Info { sample_rate: 0, channels: 0, bits_per_sample: 0, num_frames: None }
    }

    /// The discarding sink can always accept more.
    pub fn available(&self) -> (r: u32)
        ensures
            r == u32::MAX,
    {
        u32::MAX
    }
}

} // verus!
