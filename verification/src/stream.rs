//! Interfaces for audio endpoint streams (hardware sources and sinks).
//!
//! These are the contracts collaborators implement outside the core:
//! sound-card adapters, converters and the like. The core only fixes their
//! shape; no implementation lives here.

use vstd::prelude::*;

use crate::info::Info;

verus! {

/// Stream states.
#[derive(Debug, Clone, Copy, PartialEq, Eq, Structural)]
pub enum StreamState {
    Uninitialized,
    Initialized,
    Running,
    Paused,
    Stopped,
}

/// Stream errors.
#[derive(Debug, Clone, Copy, PartialEq, Eq, Structural)]
pub enum Error {
    Unsupported,
    Timeout,
}

/// Common stream operations.
pub trait Stream {
    /// Initialize the stream with its configured format.
    fn init(&mut self) -> Result<(), Error>;

    /// Start the stream.
    fn start(&mut self) -> Result<(), Error>;

    /// Stop the stream and reset internal state.
    fn stop(&mut self) -> Result<(), Error>;

    /// Pause the stream, keeping internal state.
    fn pause(&mut self) -> Result<(), Error>;

    /// Resume a paused stream.
    fn resume(&mut self) -> Result<(), Error>;

    /// The current stream state.
    fn get_state(&self) -> StreamState;

    /// The stream's format.
    fn get_info(&self) -> Info;
}

/// Input stream interface for audio capture (microphones, ADCs, file
/// readers): data is read into a caller-supplied buffer.
pub trait InputStream: Stream {
    /// Reads audio data into `buffer`, returning how many bytes were read.
    fn read(&mut self, buffer: &mut Vec<u8>) -> Result<usize, Error>;

    /// How many bytes are ready to be read.
    fn available(&self) -> Result<usize, Error>;
}

/// Output stream interface for audio playback (speakers, DACs, file
/// writers): data is written from a caller-supplied buffer.
pub trait OutputStream: Stream {
    /// Writes audio data from `buffer`, returning how many bytes were
    /// accepted.
    fn write(&mut self, buffer: &[u8]) -> Result<usize, Error>;

    /// How many more bytes the stream can accept.
    fn space_available(&self) -> Result<usize, Error>;
}

/// DAC channel selection.
#[derive(Debug, Clone, Copy, PartialEq, Eq, Structural)]
pub enum DacChannel {
    /// Single channel 1
    Channel1,
    /// Single channel 2
    Channel2,
    /// Dual channel mode
    Both,
}

/// DAC configuration parameters.
#[derive(Debug, Clone, Copy)]
pub struct DacConfig {
    pub format: Info,
    pub channel: DacChannel,
    /// Reference voltage in millivolts
    pub vref: u32,
}

/// Digital-to-analog converter interface, supporting both single-sample
/// and block conversion.
pub trait Dac: Stream + OutputStream {
    /// Configure the DAC.
    fn configure(&mut self, config: &DacConfig) -> Result<(), Error>;

    /// Write a single sample to the DAC.
    fn write_sample(&mut self, sample: u16) -> Result<(), Error>;

    /// The current DAC configuration.
    fn get_config(&self) -> Option<DacConfig>;
}

/// I2S operating modes.
#[derive(Debug, Clone, Copy, PartialEq, Eq, Structural)]
pub enum I2sMode {
    /// Clock provider
    Master,
    /// Clock receiver
    Slave,
}

/// I2S protocol standards.
#[derive(Debug, Clone, Copy, PartialEq, Eq, Structural)]
pub enum I2sStandard {
    /// Standard I2S format
    Philips,
    /// MSB justified format
    MSB,
    /// LSB justified format
    LSB,
    /// PCM format
    PCM,
}

/// I2S configuration parameters.
#[derive(Debug, Clone, Copy)]
pub struct I2sConfig {
    pub mode: I2sMode,
    pub standard: I2sStandard,
    pub format: Info,
    /// MCLK divider ratio (optional)
    pub mclk_div: Option<u32>,
}

/// Inter-IC sound device interface, for transmission and reception of
/// audio data.
pub trait I2s: Stream {
    /// Configure the I2S interface.
    fn configure(&mut self, config: &I2sConfig) -> Result<(), Error>;

    /// The current I2S configuration.
    fn get_config(&self) -> Option<I2sConfig>;
}

/// I2S input device interface.
pub trait I2sInput: I2s + InputStream {

}

/// I2S output device interface.
pub trait I2sOutput: I2s + OutputStream {

}

/// Configuration of a buffered output stream adapter: how much latency it
/// may add, and thus how large its staging ring buffer must be.
#[derive(Debug, Clone, Copy)]
pub struct Config {
    /// Ring buffer capacity in bytes; when `None`, a default is derived
    /// from the latency.
    pub rb_capacity: Option<usize>,
    /// The desired latency in milliseconds, fixing the minimum buffer size.
    pub latency_ms: usize,
    /// Number of frames to move per `process` call.
    pub frames_per_process: usize,
}

impl Default for Config {
    fn default() -> (r: Self)
        ensures
            r.rb_capacity is None,
            r.latency_ms == 50,
            r.frames_per_process == 64,
    {
        Config { rb_capacity: None, latency_ms: 50, frames_per_process: 64 }
    }
}

/// A provided ring buffer capacity is too small for the requested latency.
#[derive(Debug, Clone, Copy, PartialEq, Eq, Structural)]
pub struct CapacityTooSmallError;

impl Config {
    /// The minimum ring buffer capacity in bytes: the bytes that cross the
    /// stream within the configured latency, in whole frames.
    pub fn get_rb_min_capacity_bytes(&self, info: &Info) -> (r: usize)
        requires
            (self.latency_ms as int) * (info.sample_rate as int) <= usize::MAX,
            (self.latency_ms as int) * (info.sample_rate as int) / 1000 * (
            info.spec_alignment_bytes() as int) <= usize::MAX,
        ensures
            r == (self.latency_ms as int) * (info.sample_rate as int) / 1000 * (
            info.spec_alignment_bytes() as int),
    {
        let per_ms = self.latency_ms * info.sample_rate as usize / 1000;
        proof {
            assert(per_ms * (info.spec_alignment_bytes() as int) == (self.latency_ms as int) * (
            info.sample_rate as int) / 1000 * (info.spec_alignment_bytes() as int));
        }
        per_ms * info.get_alignment_bytes() as usize
    }

    /// The final ring buffer capacity: a caller-chosen capacity must be at
    /// least a tenth larger than the minimum; otherwise twice the minimum
    /// is used.
    pub fn get_rb_capacity_bytes(&self, info: &Info) -> (r: Result<usize, CapacityTooSmallError>)
        requires
            (self.latency_ms as int) * (info.sample_rate as int) <= usize::MAX,
            (self.latency_ms as int) * (info.sample_rate as int) / 1000 * (
            info.spec_alignment_bytes() as int) * 2 <= usize::MAX,
        ensures
            ({
                let min_cap = (self.latency_ms as int) * (info.sample_rate as int) / 1000 * (
                info.spec_alignment_bytes() as int);
                r == (match self.rb_capacity {
                    Some(cap) => if cap < min_cap + min_cap / 10 {
                        Err::<usize, CapacityTooSmallError>(CapacityTooSmallError)
                    } else {
                        Ok::<usize, CapacityTooSmallError>(cap)
                    },
                    None => Ok::<usize, CapacityTooSmallError>((min_cap * 2) as usize),
                })
            }),
    {
        let min_cap_bytes = self.get_rb_min_capacity_bytes(info);
        match self.rb_capacity {
            Some(cap) => {
                if cap < min_cap_bytes + min_cap_bytes / 10 {
                    Err(CapacityTooSmallError)
                } else {
                    Ok(cap)
                }
            },
            None => Ok(min_cap_bytes * 2),
        }
    }

    /// The minimum ring buffer capacity, computed sample-field by
    /// sample-field rather than through the frame size.
    pub fn get_rb_min_capacity(&self, info: &Info) -> (r: usize)
        requires
            (self.latency_ms as int) * (info.sample_rate as int) <= usize::MAX,
            (self.latency_ms as int) * (info.sample_rate as int) / 1000 * (info.channels as int)
                <= usize::MAX,
            (self.latency_ms as int) * (info.sample_rate as int) / 1000 * (info.channels as int) * (
            info.bits_per_sample as int) <= usize::MAX,
        ensures
            r == (self.latency_ms as int) * (info.sample_rate as int) / 1000 * (
            info.channels as int) * (info.bits_per_sample as int) / 8,
    {
        self.latency_ms * info.sample_rate as usize / 1000 * info.channels as usize
            * info.bits_per_sample as usize / 8
    }

    /// The final ring buffer capacity from `get_rb_min_capacity`, with the
    /// same tenth-larger rule.
    pub fn get_rb_capacity(&self, info: &Info) -> (r: Result<usize, CapacityTooSmallError>)
        requires
            (self.latency_ms as int) * (info.sample_rate as int) <= usize::MAX,
            (self.latency_ms as int) * (info.sample_rate as int) / 1000 * (info.channels as int)
                <= usize::MAX,
            (self.latency_ms as int) * (info.sample_rate as int) / 1000 * (info.channels as int) * (
            info.bits_per_sample as int) <= usize::MAX,
            (self.latency_ms as int) * (info.sample_rate as int) / 1000 * (info.channels as int) * (
            info.bits_per_sample as int) / 8 * 2 <= usize::MAX,
        ensures
            ({
                let min_cap = (self.latency_ms as int) * (info.sample_rate as int) / 1000 * (
                info.channels as int) * (info.bits_per_sample as int) / 8;
                r == (match self.rb_capacity {
                    Some(cap) => if cap < min_cap + min_cap / 10 {
                        Err::<usize, CapacityTooSmallError>(CapacityTooSmallError)
                    } else {
                        Ok::<usize, CapacityTooSmallError>(cap)
                    },
                    None => Ok::<usize, CapacityTooSmallError>((min_cap * 2) as usize),
                })
            }),
    {
        let min_cap = self.get_rb_min_capacity(info);
        match self.rb_capacity {
            Some(cap) => {
                if cap < min_cap + min_cap / 10 {
                    Err(CapacityTooSmallError)
                } else {
                    Ok(cap)
                }
            },
            None => Ok(min_cap * 2),
        }
    }
}

} // verus!
