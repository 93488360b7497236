//! Format description of an audio data stream.

use vstd::prelude::*;

use crate::Error;

verus! {

/// Represents metadata information about an audio data stream or file.
#[derive(Debug, Clone, Copy)]
pub struct Info {
    /// The sample rate of the audio, in Hz (samples per second).
    pub sample_rate: u32,
    /// The number of channels in the audio (e.g., 1 for mono, 2 for stereo).
    pub channels: u8,
    /// The number of bits per sample (e.g., 8, 16, 24).
    pub bits_per_sample: u8,
    /// The total number of audio frames, `None` if unknown.
    pub num_frames: Option<u32>,
}

impl Info {
    /// The number of bytes that one frame (one sample for every channel)
    /// occupies, as the 8-bit truncation the wire formats carry.
    pub open spec fn spec_alignment_bytes(self) -> u8 {
        (((self.bits_per_sample as nat) * (self.channels as nat) / 8) % 256) as u8
    }

    /// A format is usable when every field needed for frame arithmetic is
    /// non-zero and whole frames occupy a whole number of bytes.
    pub open spec fn spec_valid(self) -> bool {
        &&& self.sample_rate > 0
        &&& self.channels > 0
        &&& self.bits_per_sample > 0
        &&& (self.bits_per_sample as nat) * (self.channels as nat) % 8 == 0
        &&& (self.bits_per_sample as nat) * (self.channels as nat) / 8 < 256
    }

    pub fn new(sample_rate: u32, channels: u8, bits_per_sample: u8, num_frames: Option<u32>) -> (r: Self)
        ensures
            r == (Info { sample_rate, channels, bits_per_sample, num_frames }),
    {
        Info { sample_rate, channels, bits_per_sample, num_frames }
    }

    /// Whether the format can drive frame arithmetic.
    pub fn is_valid(&self) -> (r: bool)
        ensures
            r == self.spec_valid(),
    {
        let b = self.bits_per_sample as u32;
        let c = self.channels as u32;
        proof {
            assert(b * c <= 255 * 255) by (nonlinear_arith)
                requires b <= 255 && c <= 255;
        }
        self.sample_rate > 0 && self.channels > 0 && self.bits_per_sample > 0
            && (b * c) % 8 == 0 && (b * c) / 8 < 256
    }

    pub fn get_alignment_bytes(&self) -> (r: u8)
        ensures
            r == self.spec_alignment_bytes(),
    {
        let b = self.bits_per_sample as u32;
        let c = self.channels as u32;
        proof {
            assert(b * c <= 255 * 255) by (nonlinear_arith)
                requires b <= 255 && c <= 255;
        }
        let p: u32 = b * c / 8;
        let r: u8 = #[verifier::truncate] (p as u8);
        proof {
            assert(r == p % 256) by (bit_vector)
                requires r == p as u8;
            assert(p == (self.bits_per_sample as nat) * (self.channels as nat) / 8);
        }
        r
    }

    pub fn get_bit_rate(&self) -> (r: u32)
        requires
            (self.sample_rate as nat) * (self.channels as nat) <= u32::MAX,
            (self.sample_rate as nat) * (self.channels as nat) * (self.bits_per_sample as nat) <= u32::MAX,
        ensures
            r == (self.sample_rate as nat) * (self.channels as nat) * (self.bits_per_sample as nat),
    {
        self.sample_rate * self.channels as u32 * self.bits_per_sample as u32
    }

    pub fn get_duration_ms(&self) -> (r: Option<u32>)
        requires
            self.num_frames is Some ==> self.sample_rate > 0,
            self.num_frames is Some ==> (self.num_frames->0 as nat) * 1000 <= u32::MAX,
        ensures
            r is Some <==> self.num_frames is Some,
            r is Some ==> r->0 == (self.num_frames->0 as nat) * 1000 / (self.sample_rate as nat),
    {
        match self.num_frames {
            Some(frames) => Some((frames * 1000) / self.sample_rate),
            None => None,
        }
    }

    /// Rounds `data` down to a whole number of frames.
    pub fn down_to_alignment(&self, data: u32) -> (r: u32)
        requires
            self.spec_alignment_bytes() != 0,
        ensures
            r == (data as nat) / (self.spec_alignment_bytes() as nat) * (self.spec_alignment_bytes() as nat),
            r <= data,
            r % (self.spec_alignment_bytes() as u32) == 0,
    {
        let alignment = self.get_alignment_bytes() as u32;
        let r = data / alignment * alignment;
        proof {
            let a = self.spec_alignment_bytes() as nat;
            let d = data as nat;
            assert(d / a * a <= d && (d / a * a) % a == 0) by (nonlinear_arith)
                requires a > 0;
        }
        r
    }
}

impl Default for Info {
    /// The all-zero format: not valid, used before negotiation has happened.
    fn default() -> (r: Self)
        ensures
            r.sample_rate == 0 && r.channels == 0 && r.bits_per_sample == 0,
            r.num_frames is None,
    {
        Info { sample_rate: 0, channels: 0, bits_per_sample: 0, num_frames: None }
    }
}

impl PartialEq for Info {
    fn eq(&self, other: &Self) -> (r: bool) {
        let frames_eq = match (self.num_frames, other.num_frames) {
            (Some(a), Some(b)) => a == b,
            (None, None) => true,
            _ => false,
        };
        self.sample_rate == other.sample_rate && self.channels == other.channels
            && self.bits_per_sample == other.bits_per_sample && frames_eq
    }
}

impl vstd::std_specs::cmp::PartialEqSpecImpl for Info {
    open spec fn obeys_eq_spec() -> bool {
        true
    }

    open spec fn eq_spec(&self, other: &Self) -> bool {
        self == other
    }
}

impl Eq for Info {}

} // verus!
