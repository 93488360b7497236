//! An audio gain stage: an in-place transform multiplying every sample by
//! a fixed-point Q16.16 factor, saturating at the sample format's range.

use vstd::prelude::*;

use crate::databus::Transformer;
use crate::element::{Element, Phase, ProcessStatus};
use crate::info::Info;
use crate::port::{InPlacePort, InPort, OutPort, PortRequirement, PortRequirements};
use crate::slot::State;
use crate::Error;

verus! {

/// `v` saturated into `lo ..= hi`.
pub open spec fn clamp_val(v: int, lo: int, hi: int) -> int {
    if v < lo {
        lo
    } else if v > hi {
        hi
    } else {
        v
    }
}

/// A sample of value `v` under Q16.16 gain `g`: the product scaled back
/// down (rounding toward minus infinity, as an arithmetic shift does) and
/// saturated into `lo ..= hi`.
pub open spec fn gain_sample(v: int, g: int, lo: int, hi: int) -> int {
    clamp_val((v * g) / 0x1_0000, lo, hi)
}

/// The signed 16-bit sample stored little-endian in two bytes.
pub open spec fn decode_i16(b0: u8, b1: u8) -> int {
    crate::bytestream::le16(b0, b1) - (if b1 >= 0x80 {
        0x1_0000int
    } else {
        0int
    })
}

/// The signed 24-bit sample stored little-endian in three bytes.
pub open spec fn decode_s24(b0: u8, b1: u8, b2: u8) -> int {
    b0 + b1 * 0x100 + b2 * 0x1_0000 - (if b2 >= 0x80 {
        0x100_0000int
    } else {
        0int
    })
}

/// The signed 32-bit sample stored little-endian in four bytes.
pub open spec fn decode_i32(b0: u8, b1: u8, b2: u8, b3: u8) -> int {
    crate::bytestream::le32(b0, b1, b2, b3) - (if b3 >= 0x80 {
        0x1_0000_0000int
    } else {
        0int
    })
}

/// An unsigned 8-bit sample under gain: centered at 128, scaled, recentered
/// and saturated to the byte range.
pub open spec fn gain_u8(b: u8, g: int) -> int {
    clamp_val((b - 128) * g / 0x1_0000 + 128, 0, 255)
}

/// Flooring division by `d` of a negated non-negative numerator: rounding
/// toward minus infinity equals negating the rounded-up quotient.
proof fn lemma_neg_div_floor(m: int, d: int)
    requires
        m >= 0,
        d > 0,
    ensures
        (-m) / d == -((m + d - 1) / d),
{
    let q = (m + d - 1) / d;
    let r = (m + d - 1) % d;
    vstd::arithmetic::div_mod::lemma_fundamental_div_mod(m + d - 1, d);
    vstd::arithmetic::div_mod::lemma_mod_bound(m + d - 1, d);
    assert(m + d - 1 == d * q + r);
    assert(-m == (-q) * d + (d - 1 - r)) by (nonlinear_arith)
        requires
            m + d - 1 == d * q + r,
    ;
    vstd::arithmetic::div_mod::lemma_fundamental_div_mod_converse(-m, d, -q, d - 1 - r);
}

/// The scaled product `(v * g) / 2^16`, rounded toward minus infinity.
fn gain_q16_floor(v: i64, g: i32) -> (r: i64)
    requires
        -0x1_0000_0000i64 <= v <= 0x1_0000_0000i64,
    ensures
        r == (v as int) * (g as int) / 0x1_0000,
{
    let vm: u64 = if v >= 0 {
        v as u64
    } else {
        (-v) as u64
    };
    let gm: u64 = if g >= 0 {
        g as u64
    } else {
        (-(g as i64)) as u64
    };
    proof {
        assert(vm * gm <= 0x1_0000_0000u64 * 0x8000_0000u64) by (nonlinear_arith)
            requires
                0 <= vm <= 0x1_0000_0000u64,
                0 <= gm <= 0x8000_0000u64,
        ;
    }
    let mag: u64 = vm * gm;
    let neg = ((v < 0) != (g < 0)) && mag != 0;
    proof {
        assert((v as int) * (g as int) == (if neg {
            -(mag as int)
        } else {
            mag as int
        })) by (nonlinear_arith)
            requires
                vm == (if v >= 0 {
                    v as int
                } else {
                    -(v as int)
                }),
                gm == (if g >= 0 {
                    g as int
                } else {
                    -(g as int)
                }),
                mag == vm * gm,
                neg == (((v < 0) != (g < 0)) && mag != 0),
        ;
    }
    if neg {
        let q: u64 = (mag + 0xFFFF) / 0x1_0000;
        proof {
            lemma_neg_div_floor(mag as int, 0x1_0000);
        }
        -(q as i64)
    } else {
        let q: u64 = mag / 0x1_0000;
        q as i64
    }
}

/// `v` saturated into `lo ..= hi`.
fn clamp_i64(v: i64, lo: i64, hi: i64) -> (r: i64)
    requires
        lo <= hi,
    ensures
        r == clamp_val(v as int, lo as int, hi as int),
{
    if v < lo {
        lo
    } else if v > hi {
        hi
    } else {
        v
    }
}

/// Applies the Q16.16 gain to one signed 16-bit sample, saturating.
pub fn apply_gain_fixed_i16(sample: i16, gain: i32) -> (r: i16)
    ensures
        r == gain_sample(sample as int, gain as int, i16::MIN as int, i16::MAX as int),
{
    let q = gain_q16_floor(sample as i64, gain);
    clamp_i64(q, -32768, 32767) as i16
}

/// Applies the Q16.16 gain to one signed 32-bit sample, saturating.
pub fn apply_gain_fixed_i32(sample: i32, gain: i32) -> (r: i32)
    ensures
        r == gain_sample(sample as int, gain as int, i32::MIN as int, i32::MAX as int),
{
    let q = gain_q16_floor(sample as i64, gain);
    clamp_i64(q, -0x8000_0000i64, 0x7FFF_FFFFi64) as i32
}

/// Applies the Q16.16 gain to one unsigned 8-bit sample, centered at 128.
pub fn apply_gain_fixed_u8(sample: u8, gain: i32) -> (r: u8)
    ensures
        r == gain_u8(sample, gain as int),
{
    let centered: i64 = sample as i64 - 128;
    let q = gain_q16_floor(centered, gain);
    let r64: i64 = if q >= 128 {
        255
    } else if q <= -129 {
        0
    } else {
        q + 128
    };
    r64 as u8
}

/// Applies the Q16.16 gain to one signed 24-bit sample, saturating.
pub fn apply_gain_fixed_s24(sample: i32, gain: i32) -> (r: i32)
    requires
        -0x80_0000 <= sample <= 0x7F_FFFF,
    ensures
        r == gain_sample(sample as int, gain as int, -0x80_0000, 0x7F_FFFF),
{
    let q = gain_q16_floor(sample as i64, gain);
    clamp_i64(q, -0x80_0000i64, 0x7F_FFFFi64) as i32
}

/// Frame `f` of `new_b` holds frame `f` of `old_b` under the gain, as a
/// signed 16-bit little-endian sample.
pub open spec fn frame16_ok(old_b: Seq<u8>, new_b: Seq<u8>, g: int, f: int) -> bool {
    decode_i16(new_b[2 * f], new_b[2 * f + 1]) == gain_sample(
        decode_i16(old_b[2 * f], old_b[2 * f + 1]),
        g,
        i16::MIN as int,
        i16::MAX as int,
    )
}

/// Frame `f` of `new_b` holds frame `f` of `old_b` under the gain, as a
/// signed 24-bit little-endian sample.
pub open spec fn frame24_ok(old_b: Seq<u8>, new_b: Seq<u8>, g: int, f: int) -> bool {
    decode_s24(new_b[3 * f], new_b[3 * f + 1], new_b[3 * f + 2]) == gain_sample(
        decode_s24(old_b[3 * f], old_b[3 * f + 1], old_b[3 * f + 2]),
        g,
        -0x80_0000,
        0x7F_FFFF,
    )
}

/// Frame `f` of `new_b` holds frame `f` of `old_b` under the gain, as a
/// signed 32-bit little-endian sample.
pub open spec fn frame32_ok(old_b: Seq<u8>, new_b: Seq<u8>, g: int, f: int) -> bool {
    decode_i32(new_b[4 * f], new_b[4 * f + 1], new_b[4 * f + 2], new_b[4 * f + 3]) == gain_sample(
        decode_i32(old_b[4 * f], old_b[4 * f + 1], old_b[4 * f + 2], old_b[4 * f + 3]),
        g,
        i32::MIN as int,
        i32::MAX as int,
    )
}

/// The whole buffer under the gain, for the sample width `bits`: every
/// complete sample rewritten, trailing bytes that do not form a whole
/// sample untouched.
pub open spec fn gained_bytes_ok(old_b: Seq<u8>, new_b: Seq<u8>, g: int, bits: u8) -> bool {
    &&& new_b.len() == old_b.len()
    &&& bits == 8 ==> forall|i: int| 0 <= i < old_b.len() ==> new_b[i] == gain_u8(old_b[i], g)
    &&& bits == 16 ==> {
        &&& forall|f: int| 0 <= f < old_b.len() / 2 ==> #[trigger] frame16_ok(old_b, new_b, g, f)
        &&& forall|i: int| 2 * (old_b.len() / 2) <= i < old_b.len() ==> new_b[i] == old_b[i]
    }
    &&& bits == 24 ==> {
        &&& forall|f: int| 0 <= f < old_b.len() / 3 ==> #[trigger] frame24_ok(old_b, new_b, g, f)
        &&& forall|i: int| 3 * (old_b.len() / 3) <= i < old_b.len() ==> new_b[i] == old_b[i]
    }
    &&& bits == 32 ==> {
        &&& forall|f: int| 0 <= f < old_b.len() / 4 ==> #[trigger] frame32_ok(old_b, new_b, g, f)
        &&& forall|i: int| 4 * (old_b.len() / 4) <= i < old_b.len() ==> new_b[i] == old_b[i]
    }
}

/// Rewrites every byte of the buffer as an unsigned 8-bit sample under the
/// gain.
fn process_scalar_u8(data: &mut Vec<u8>, gain: i32)
    ensures
        gained_bytes_ok(old(data)@, final(data)@, gain as int, 8),
{
    let n = data.len();
    let mut i: usize = 0;
    while i < n
        invariant
            i <= n,
            n == data@.len(),
            data@.len() == old(data)@.len(),
            forall|j: int| 0 <= j < i ==> data@[j] == gain_u8(old(data)@[j], gain as int),
            forall|j: int| i <= j < n ==> data@[j] == old(data)@[j],
        decreases n - i,
    {
        let b = data[i];
        let w = apply_gain_fixed_u8(b, gain);
        data[i] = w;
        i = i + 1;
    }
}

/// Rewrites every complete 2-byte frame of the buffer as a signed 16-bit
/// little-endian sample under the gain.
fn process_scalar_i16(data: &mut Vec<u8>, gain: i32)
    ensures
        gained_bytes_ok(old(data)@, final(data)@, gain as int, 16),
{
    let len = data.len();
    let n = len / 2;
    let mut f: usize = 0;
    while f < n
        invariant
            f <= n,
            len == data@.len(),
            n == len / 2,
            data@.len() == old(data)@.len(),
            forall|k: int| 0 <= k < f ==> #[trigger] frame16_ok(old(data)@, data@, gain as int, k),
            forall|j: int| 2 * f <= j < data@.len() ==> data@[j] == old(data)@[j],
        decreases n - f,
    {
        let b0 = data[2 * f];
        let b1 = data[2 * f + 1];
        let u: u16 = b0 as u16 + b1 as u16 * 0x100;
        let v: i32 = if u >= 0x8000 {
            u as i32 - 0x1_0000
        } else {
            u as i32
        };
        assert(v == decode_i16(b0, b1));
        let w: i16 = apply_gain_fixed_i16(v as i16, gain);
        let u2: u16 = if w >= 0 {
            w as u16
        } else {
            (w as i32 + 0x1_0000) as u16
        };
        let c0: u8 = (u2 % 0x100) as u8;
        let c1: u8 = (u2 / 0x100) as u8;
        assert(decode_i16(c0, c1) == w);
        let ghost pre = data@;
        data[2 * f] = c0;
        data[2 * f + 1] = c1;
        proof {
            assert forall|k: int| 0 <= k < f + 1 implies #[trigger] frame16_ok(
                old(data)@,
                data@,
                gain as int,
                k,
            ) by {
                if k < f {
                    assert(frame16_ok(old(data)@, pre, gain as int, k));
                    assert(data@[2 * k] == pre[2 * k] && data@[2 * k + 1] == pre[2 * k + 1]);
                } else {
                    assert(data@[2 * k] == c0 && data@[2 * k + 1] == c1);
                }
            }
        }
        f = f + 1;
    }
}

/// Rewrites every complete 3-byte frame of the buffer as a signed 24-bit
/// little-endian sample under the gain.
fn process_24bit_fixed(data: &mut Vec<u8>, gain: i32)
    ensures
        gained_bytes_ok(old(data)@, final(data)@, gain as int, 24),
{
    let len = data.len();
    let n = len / 3;
    let mut f: usize = 0;
    while f < n
        invariant
            f <= n,
            len == data@.len(),
            n == len / 3,
            data@.len() == old(data)@.len(),
            forall|k: int| 0 <= k < f ==> #[trigger] frame24_ok(old(data)@, data@, gain as int, k),
            forall|j: int| 3 * f <= j < data@.len() ==> data@[j] == old(data)@[j],
        decreases n - f,
    {
        let b0 = data[3 * f];
        let b1 = data[3 * f + 1];
        let b2 = data[3 * f + 2];
        let u: u32 = b0 as u32 + b1 as u32 * 0x100 + b2 as u32 * 0x1_0000;
        let v: i32 = if u >= 0x80_0000 {
            u as i32 - 0x100_0000
        } else {
            u as i32
        };
        assert(v == decode_s24(b0, b1, b2));
        let w: i32 = apply_gain_fixed_s24(v, gain);
        let u2: u32 = if w >= 0 {
            w as u32
        } else {
            (w + 0x100_0000) as u32
        };
        let c0: u8 = (u2 % 0x100) as u8;
        let c1: u8 = (u2 / 0x100 % 0x100) as u8;
        let c2: u8 = (u2 / 0x1_0000) as u8;
        proof {
            assert(u2 == c0 + c1 * 0x100 + c2 * 0x1_0000 && c2 < 0x100) by (nonlinear_arith)
                requires
                    c0 == u2 % 0x100,
                    c1 == u2 / 0x100 % 0x100,
                    c2 == u2 / 0x1_0000,
                    u2 < 0x100_0000,
            ;
        }
        assert(decode_s24(c0, c1, c2) == w);
        let ghost pre = data@;
        data[3 * f] = c0;
        data[3 * f + 1] = c1;
        data[3 * f + 2] = c2;
        proof {
            assert forall|k: int| 0 <= k < f + 1 implies #[trigger] frame24_ok(
                old(data)@,
                data@,
                gain as int,
                k,
            ) by {
                if k < f {
                    assert(frame24_ok(old(data)@, pre, gain as int, k));
                    assert(data@[3 * k] == pre[3 * k] && data@[3 * k + 1] == pre[3 * k + 1]
                        && data@[3 * k + 2] == pre[3 * k + 2]);
                } else {
                    assert(data@[3 * k] == c0 && data@[3 * k + 1] == c1 && data@[3 * k + 2] == c2);
                }
            }
        }
        f = f + 1;
    }
}

/// Rewrites every complete 4-byte frame of the buffer as a signed 32-bit
/// little-endian sample under the gain.
fn process_scalar_i32(data: &mut Vec<u8>, gain: i32)
    ensures
        gained_bytes_ok(old(data)@, final(data)@, gain as int, 32),
{
    let len = data.len();
    let n = len / 4;
    let mut f: usize = 0;
    while f < n
        invariant
            f <= n,
            len == data@.len(),
            n == len / 4,
            data@.len() == old(data)@.len(),
            forall|k: int| 0 <= k < f ==> #[trigger] frame32_ok(old(data)@, data@, gain as int, k),
            forall|j: int| 4 * f <= j < data@.len() ==> data@[j] == old(data)@[j],
        decreases n - f,
    {
        let b0 = data[4 * f];
        let b1 = data[4 * f + 1];
        let b2 = data[4 * f + 2];
        let b3 = data[4 * f + 3];
        let u: u32 = b0 as u32 + b1 as u32 * 0x100 + b2 as u32 * 0x1_0000 + b3 as u32 * 0x100_0000;
        let v: i64 = if u >= 0x8000_0000u32 {
            u as i64 - 0x1_0000_0000i64
        } else {
            u as i64
        };
        assert(v == decode_i32(b0, b1, b2, b3));
        let w: i32 = apply_gain_fixed_i32(v as i32, gain);
        let u2: u32 = if w >= 0 {
            w as u32
        } else {
            (w as i64 + 0x1_0000_0000i64) as u32
        };
        let c0: u8 = (u2 % 0x100) as u8;
        let c1: u8 = (u2 / 0x100 % 0x100) as u8;
        let c2: u8 = (u2 / 0x1_0000 % 0x100) as u8;
        let c3: u8 = (u2 / 0x100_0000) as u8;
        proof {
            assert(u2 == c0 + c1 * 0x100 + c2 * 0x1_0000 + c3 * 0x100_0000 && c3 < 0x100)
                by (nonlinear_arith)
                requires
                    c0 == u2 % 0x100,
                    c1 == u2 / 0x100 % 0x100,
                    c2 == u2 / 0x1_0000 % 0x100,
                    c3 == u2 / 0x100_0000,
                    u2 <= u32::MAX,
            ;
        }
        assert(decode_i32(c0, c1, c2, c3) == w);
        let ghost pre = data@;
        data[4 * f] = c0;
        data[4 * f + 1] = c1;
        data[4 * f + 2] = c2;
        data[4 * f + 3] = c3;
        proof {
            assert forall|k: int| 0 <= k < f + 1 implies #[trigger] frame32_ok(
                old(data)@,
                data@,
                gain as int,
                k,
            ) by {
                if k < f {
                    assert(frame32_ok(old(data)@, pre, gain as int, k));
                    assert(data@[4 * k] == pre[4 * k] && data@[4 * k + 1] == pre[4 * k + 1]
                        && data@[4 * k + 2] == pre[4 * k + 2] && data@[4 * k + 3] == pre[4 * k
                        + 3]);
                } else {
                    assert(data@[4 * k] == c0 && data@[4 * k + 1] == c1 && data@[4 * k + 2] == c2
                        && data@[4 * k + 3] == c3);
                }
            }
        }
        f = f + 1;
    }
}

/// An element that applies gain to an audio signal in place.
pub struct Gain {
    info: Option<Info>,
    fixed_gain: i32,
    port_requirements: Option<PortRequirements>,
    phase: Phase,
}

impl Gain {
    /// The negotiated format, once initialized.
    pub closed spec fn spec_info(&self) -> Option<Info> {
        self.info
    }

    /// The Q16.16 gain factor the stage applies.
    pub closed spec fn spec_fixed_gain(&self) -> i32 {
        self.fixed_gain
    }

    /// Where the stage stands in its lifecycle.
    pub closed spec fn spec_phase(&self) -> Phase {
        self.phase
    }

    /// Creates a new gain element from a Q16.16 fixed-point factor
    /// (`0x1_0000` is unity).
    pub fn new_fixed_q16_16(gain: i32) -> (r: Self)
        ensures
            r.wf(),
            r.spec_fixed_gain() == gain,
            r.spec_phase() == Phase::Uninitialized,
            r.spec_info() is None,
    {
        Gain { info: None, fixed_gain: gain, port_requirements: None, phase: Phase::Uninitialized }
    }

    /// This build processes samples with scalar fixed-point arithmetic
    /// only; no vector unit is used.
    pub fn is_using_simd(&self) -> (r: bool)
        ensures
            !r,
    {
        false
    }
}

impl Element for Gain {
    closed spec fn phase(&self) -> Phase {
        self.phase
    }

    /// Once initialized the stage holds a format with a supported sample
    /// width and its declared in-place requirement.
    closed spec fn wf(&self) -> bool {
        self.phase != Phase::Uninitialized ==> {
            &&& self.info matches Some(i) && (i.bits_per_sample == 8 || i.bits_per_sample == 16
                || i.bits_per_sample == 24 || i.bits_per_sample == 32)
            &&& self.port_requirements == Some(
                PortRequirements {
                    in_: PortRequirement::Unused,
                    out: PortRequirement::Unused,
                    in_place: Some((self.info->0.bits_per_sample / 8) as u32),
                },
            )
        }
    }

    fn get_in_info(&self) -> (r: Option<Info>)
        ensures
            r == self.spec_info(),
    {
        self.info
    }

    /// The gain stage does not change the format: out equals in.
    fn get_out_info(&self) -> (r: Option<Info>)
        ensures
            r == self.spec_info(),
    {
        self.info
    }

    fn get_port_requirements(&self) -> (r: Result<PortRequirements, Error>)
        ensures
            self.spec_phase() != Phase::Uninitialized ==> r == Ok::<PortRequirements, Error>(
                PortRequirements {
                    in_: PortRequirement::Unused,
                    out: PortRequirement::Unused,
                    in_place: Some((self.spec_info()->0.bits_per_sample / 8) as u32),
                },
            ),
    {
        match self.phase {
            Phase::Uninitialized => Err(Error::InvalidState),
            _ => match self.port_requirements {
                Some(pr) => Ok(pr),
                None => {
                    proof {
                        assert(false);
                    }
                    Err(Error::InvalidState)
                },
            },
        }
    }

    /// Adopts the upstream format and declares an in-place connection of
    /// at least one sample. A missing format is `InvalidParameter`; a
    /// sample width other than 8, 16, 24 or 32 bits is `Unsupported`.
    fn initialize(&mut self, upstream_info: Option<Info>) -> (r: Result<PortRequirements, Error>)
        ensures
            old(self).spec_phase() == Phase::Uninitialized ==> match upstream_info {
                Some(i) => {
                    &&& (r is Ok <==> (i.bits_per_sample == 8 || i.bits_per_sample == 16
                        || i.bits_per_sample == 24 || i.bits_per_sample == 32))
                    &&& (r is Err ==> r == Err::<PortRequirements, Error>(Error::Unsupported)
                        && *final(self) == *old(self))
                    &&& (r is Ok ==> {
                        &&& r == Ok::<PortRequirements, Error>(
                            PortRequirements {
                                in_: PortRequirement::Unused,
                                out: PortRequirement::Unused,
                                in_place: Some((i.bits_per_sample / 8) as u32),
                            },
                        )
                        &&& final(self).spec_info() == Some(i)
                        &&& final(self).spec_fixed_gain() == old(self).spec_fixed_gain()
                    })
                },
                None => r == Err::<PortRequirements, Error>(Error::InvalidParameter)
                    && *final(self) == *old(self),
            },
    {
        match self.phase {
            Phase::Uninitialized => {},
            _ => {
                return Err(Error::InvalidState);
            },
        }
        let info = match upstream_info {
            Some(i) => i,
            None => {
                return Err(Error::InvalidParameter);
            },
        };
        let bits = info.bits_per_sample;
        if !(bits == 8 || bits == 16 || bits == 24 || bits == 32) {
            return Err(Error::Unsupported);
        }
        self.info = Some(info);
        let reqs = PortRequirements::new_in_place((bits / 8) as u32);
        self.port_requirements = Some(reqs);
        self.phase = Phase::Initialized;
        Ok(reqs)
    }

    /// One bounded unit of work: acquires the chunk waiting on the
    /// in-place port, multiplies every sample in the whole buffer by the
    /// gain, and presents the rewritten chunk back to the consumer. The
    /// stage never ends the stream itself.
    fn process(
        &mut self,
        in_port: &mut InPort,
        out_port: &mut OutPort,
        inplace_port: &mut InPlacePort,
    ) -> (r: Result<ProcessStatus, Error>)
        ensures
            *final(in_port) == *old(in_port),
            *final(out_port) == *old(out_port),
            ({
                let phase_ok = old(self).spec_phase() == Phase::Initialized || old(self).spec_phase()
                    == Phase::Running;
                &&& ((phase_ok && !(*old(inplace_port) matches InPlacePort::Transformer(_))) ==> r
                    == Err::<ProcessStatus, Error>(Error::Unsupported) && *final(self) == *old(self)
                    && *final(inplace_port) == *old(inplace_port))
                &&& (*old(inplace_port) matches InPlacePort::Transformer(slot) ==> phase_ok ==> {
                    if slot.spec_state() != State::Full {
                        &&& r == Err::<ProcessStatus, Error>(
                            if slot.spec_state() == State::NoneBuffer {
                                Error::InvalidState
                            } else {
                                Error::Busy
                            },
                        )
                        &&& *final(self) == *old(self)
                        &&& *final(inplace_port) == *old(inplace_port)
                    } else {
                        &&& r == Ok::<ProcessStatus, Error>(ProcessStatus::Fine)
                        &&& final(self).spec_phase() == Phase::Running
                        &&& final(self).spec_info() == old(self).spec_info()
                        &&& final(self).spec_fixed_gain() == old(self).spec_fixed_gain()
                        &&& (*final(inplace_port) matches InPlacePort::Transformer(s2) && {
                            &&& s2.spec_state() == State::Full
                            &&& s2.spec_buffer() matches Some(b2) && gained_bytes_ok(
                                slot.spec_buffer()->0,
                                b2,
                                old(self).spec_fixed_gain() as int,
                                old(self).spec_info()->0.bits_per_sample,
                            )
                            &&& s2.spec_metadata() == slot.spec_metadata()
                        })
                    }
                })
            }),
    {
        match self.phase {
            Phase::Initialized | Phase::Running => {},
            _ => {
                return Err(Error::InvalidState);
            },
        }
        match inplace_port {
            InPlacePort::Transformer(slot) => {
                let mut payload = match slot.acquire_transform() {
                    Ok(p) => p,
                    Err(e) => {
                        return Err(e);
                    },
                };
                let info = match self.info {
                    Some(i) => i,
                    None => {
                        proof {
                            assert(false);
                        }
                        return Err(Error::NotInitialized);
                    },
                };
                match info.bits_per_sample {
                    8 => process_scalar_u8(&mut payload.data, self.fixed_gain),
                    16 => process_scalar_i16(&mut payload.data, self.fixed_gain),
                    24 => process_24bit_fixed(&mut payload.data, self.fixed_gain),
                    32 => process_scalar_i32(&mut payload.data, self.fixed_gain),
                    _ => {
                        proof {
                            assert(false);
                        }
                    },
                }
                match slot.release_transform(payload) {
                    Ok(()) => {},
                    Err(_) => {
                        proof {
                            assert(false);
                        }
                    },
                }
                self.phase = Phase::Running;
                Ok(ProcessStatus::Fine)
            },
            _ => Err(Error::Unsupported),
        }
    }

    /// Returns to `Initialized`; the gain stage keeps no in-flight state
    /// beyond its lifecycle position.
    fn reset(&mut self) -> (r: Result<(), Error>)
        ensures
            old(self).spec_phase() == Phase::Uninitialized ==> *final(self) == *old(self),
            old(self).spec_phase() != Phase::Uninitialized ==> {
                &&& r is Ok
                &&& final(self).spec_info() == old(self).spec_info()
                &&& final(self).spec_fixed_gain() == old(self).spec_fixed_gain()
            },
    {
        match self.phase {
            Phase::Uninitialized => Err(Error::InvalidState),
            _ => {
                self.phase = Phase::Initialized;
                Ok(())
            },
        }
    }

    fn flush(&mut self) -> (r: Result<(), Error>)
        ensures
            old(self).spec_phase() == Phase::Uninitialized ==> *final(self) == *old(self),
            old(self).spec_phase() != Phase::Uninitialized ==> {
                &&& r is Ok
                &&& final(self).spec_info() == old(self).spec_info()
                &&& final(self).spec_fixed_gain() == old(self).spec_fixed_gain()
            },
    {
        match self.phase {
            Phase::Uninitialized => Err(Error::InvalidState),
            _ => {
                self.phase = Phase::Initialized;
                Ok(())
            },
        }
    }

    /// The transform is stateless across chunks: it can always work.
    fn available(&self) -> (r: u32)
        ensures
            r == u32::MAX,
    {
        u32::MAX
    }
}

} // verus!
