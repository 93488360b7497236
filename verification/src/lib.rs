//! Building blocks for composing real-time audio processing pipelines under
//! embedded, no-heap-per-chunk constraints.
//!
//! Stages exchange fixed-size chunks of audio through a single-slot channel
//! (`slot::Slot`) instead of copying through queues. A slot hands its buffer
//! to exactly one holder at a time; the holder works through a scoped
//! `payload::Payload` and returns it, which advances the slot's state machine.
//! Stages (`element::Element`) negotiate their connections through
//! `port::PortRequirements` and advance through an initialize / process /
//! reset lifecycle, tagging every emitted chunk with its stream position.

use vstd::prelude::*;

pub mod bytestream;
pub mod databus;
pub mod decoder;
pub mod element;
pub mod encoder;
pub mod info;
pub mod payload;
pub mod pipeline;
pub mod port;
pub mod relay;
pub mod slot;
pub mod stream;
pub mod transformer;

verus! {

/// Errors reported by the pipeline core.
#[derive(Debug, Clone, Copy, PartialEq, Eq, Structural)]
pub enum Error {
    /// Invalid parameters provided
    InvalidParameter,
    /// Device is not initialized
    NotInitialized,
    /// Device is in an invalid state for the requested operation
    InvalidState,
    /// Device is busy
    Busy,
    /// Operation timed out
    Timeout,
    /// Buffer is full
    BufferFull,
    /// Buffer is empty
    BufferEmpty,
    /// Device hardware error
    DeviceError,
    /// Operation not supported
    Unsupported,
}

} // verus!
