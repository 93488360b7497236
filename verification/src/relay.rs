//! A pass-through stage moving chunks from its input to its output,
//! counting what it has moved, up to a fixed playing time.

use vstd::prelude::*;

use crate::databus::{Consumer, Producer};
use crate::element::{Element, Phase, ProcessStatus};
use crate::info::Info;
use crate::payload::Metadata;
use crate::port::{InPlacePort, InPort, OutPort, PortRequirement, PortRequirements};
use crate::slot::State;
use crate::Error;

verus! {

/// How many whole frames one relay step moves: the valid input bytes,
/// clamped to the output buffer, rounded down to whole frames, and capped
/// by what remains of the relay's budget.
pub open spec fn relay_frames(valid: int, cap: int, align: int, budget: int) -> int {
    vstd::math::min(vstd::math::min(valid, cap) / align, budget)
}

/// A relay copies chunks from upstream to downstream unchanged, for at
/// most the number of samples that fit its configured duration.
pub struct Relay {
    total_samples: u64,
    samples_processed: u64,
    info: Info,
    phase: Phase,
}

impl Relay {
    /// The total budget, in alignment units, derived from the duration.
    pub closed spec fn spec_total_samples(&self) -> int {
        self.total_samples as int
    }

    /// How many alignment units have been moved so far.
    pub closed spec fn spec_samples_processed(&self) -> int {
        self.samples_processed as int
    }

    pub closed spec fn spec_info(&self) -> Info {
        self.info
    }

    /// Where the stage stands in its lifecycle.
    pub closed spec fn spec_phase(&self) -> Phase {
        self.phase
    }

    /// Creates a relay for `total_ms` milliseconds of audio in format
    /// `info`.
    pub fn new(info: Info, total_ms: u32) -> (r: Self)
        requires
            (info.sample_rate as int) * (info.channels as int) <= u32::MAX,
            info.spec_valid(),
        ensures
            r.wf(),
            r.spec_phase() == Phase::Uninitialized,
            r.spec_info() == info,
            r.spec_samples_processed() == 0,
            r.spec_total_samples() == (info.sample_rate as int) * (info.channels as int) * (
            total_ms as int) / 1000,
    {
        proof {
            assert((info.sample_rate as int) * (info.channels as int) <= 0xFFFF_FFFFi64)
                by (nonlinear_arith)
                requires
                    (info.sample_rate as int) * (info.channels as int) <= u32::MAX,
            ;
            assert(0 <= (info.sample_rate as int) * (info.channels as int)) by (nonlinear_arith)
                requires
                    info.sample_rate >= 0,
                    info.channels >= 0,
            ;
            assert((info.sample_rate as int) * (info.channels as int) * (total_ms as int)
                <= 0xFFFF_FFFFi64 * 0xFFFF_FFFFi64) by (nonlinear_arith)
                requires
                    0 <= (info.sample_rate as int) * (info.channels as int) <= 0xFFFF_FFFFi64,
                    0 <= total_ms <= 0xFFFF_FFFFu32,
            ;
        }
        let samples_per_second: u32 = info.sample_rate * info.channels as u32;
        let total_samples: u64 = (samples_per_second as u64 * total_ms as u64) / 1000;
        Relay { total_samples, samples_processed: 0, info, phase: Phase::Uninitialized }
    }

    pub fn get_processed_samples(&self) -> (r: u64)
        ensures
            r == self.spec_samples_processed(),
    {
        self.samples_processed
    }

    pub fn get_info(&self) -> (r: Info)
        ensures
            r == self.spec_info(),
    {
        self.info
    }
}

impl Element for Relay {
    closed spec fn phase(&self) -> Phase {
        self.phase
    }

    /// The format drives frame arithmetic and the moved count never
    /// exceeds the budget.
    closed spec fn wf(&self) -> bool {
        &&& self.info.spec_valid()
        &&& self.samples_processed <= self.total_samples
    }

    fn get_in_info(&self) -> (r: Option<Info>)
        ensures
            r == Some(self.spec_info()),
    {
        Some(self.info)
    }

    fn get_out_info(&self) -> (r: Option<Info>)
        ensures
            r == Some(self.spec_info()),
    {
        Some(self.info)
    }

    fn get_port_requirements(&self) -> (r: Result<PortRequirements, Error>)
        ensures
            self.spec_phase() != Phase::Uninitialized ==> r == Ok::<PortRequirements, Error>(
                PortRequirements {
                    in_: PortRequirement::Payload(self.spec_info().spec_alignment_bytes() as u32),
                    out: PortRequirement::Payload(self.spec_info().spec_alignment_bytes() as u32),
                    in_place: None::<u32>,
                },
            ),
    {
        match self.phase {
            Phase::Uninitialized => Err(Error::InvalidState),
            _ => {
                let align = self.info.get_alignment_bytes() as u32;
                Ok(
                    PortRequirements {
                        in_: PortRequirement::Payload(align),
                        out: PortRequirement::Payload(align),
                        in_place: None,
                    },
                )
            },
        }
    }

    /// The relay's format is fixed at construction: an upstream format,
    /// when given, must match it.
    fn initialize(&mut self, upstream_info: Option<Info>) -> (r: Result<PortRequirements, Error>)
        ensures
            old(self).spec_phase() == Phase::Uninitialized ==> {
                &&& (r is Ok <==> match upstream_info {
                    Some(i) => i == old(self).spec_info(),
                    None => true,
                })
                &&& (r is Err ==> r == Err::<PortRequirements, Error>(Error::InvalidParameter)
                    && *final(self) == *old(self))
                &&& (r is Ok ==> r == Ok::<PortRequirements, Error>(
                    PortRequirements {
                        in_: PortRequirement::Payload(
                            old(self).spec_info().spec_alignment_bytes() as u32,
                        ),
                        out: PortRequirement::Payload(
                            old(self).spec_info().spec_alignment_bytes() as u32,
                        ),
                        in_place: None::<u32>,
                    },
                ) && final(self).spec_info() == old(self).spec_info()
                    && final(self).spec_samples_processed() == 0)
            },
    {
        match self.phase {
            Phase::Uninitialized => {},
            _ => {
                return Err(Error::InvalidState);
            },
        }
        match upstream_info {
            Some(i) => {
                if !(i == self.info) {
                    return Err(Error::InvalidParameter);
                }
            },
            None => {},
        }
        self.samples_processed = 0;
        self.phase = Phase::Initialized;
        let align = self.info.get_alignment_bytes() as u32;
        Ok(
            PortRequirements {
                in_: PortRequirement::Payload(align),
                out: PortRequirement::Payload(align),
                in_place: None,
            },
        )
    }

    /// One bounded unit of work: consumes the chunk waiting on the input
    /// slot and produces it unchanged into the output slot, frame-aligned
    /// and capped by the remaining budget, carrying the position tag
    /// through; a terminal chunk stops the relay.
    fn process(
        &mut self,
        in_port: &mut InPort,
        out_port: &mut OutPort,
        inplace_port: &mut InPlacePort,
    ) -> (r: Result<ProcessStatus, Error>)
        ensures
            *final(inplace_port) == *old(inplace_port),
            ({
                let phase_ok = old(self).spec_phase() == Phase::Initialized || old(self).spec_phase()
                    == Phase::Running;
                &&& ((phase_ok && !(*old(in_port) matches InPort::Consumer(_) && *old(out_port)
                    matches OutPort::Producer(_))) ==> r == Err::<ProcessStatus, Error>(
                    Error::Unsupported,
                ) && *final(self) == *old(self) && *final(in_port) == *old(in_port) && *final(out_port) == *old(out_port))
                &&& (*old(in_port) matches InPort::Consumer(ins) ==> *old(out_port)
                    matches OutPort::Producer(outs) ==> phase_ok ==> {
                    if ins.spec_state() != State::Full {
                        &&& r is Err
                        &&& *final(self) == *old(self)
                        &&& *final(in_port) == *old(in_port)
                        &&& *final(out_port) == *old(out_port)
                    } else if outs.spec_state() != State::Empty {
                        &&& r is Err
                        &&& *final(self) == *old(self)
                        &&& *final(out_port) == *old(out_port)
                        &&& (*final(in_port) matches InPort::Consumer(s2) && {
                            &&& s2.spec_state() == State::Full
                            &&& s2.spec_buffer() == ins.spec_buffer()
                            &&& s2.spec_metadata() == ins.spec_metadata()
                        })
                    } else {
                        let b = ins.spec_buffer()->0;
                        let m = ins.spec_metadata()->0;
                        let ocap = outs.spec_buffer()->0.len() as int;
                        let align = old(self).spec_info().spec_alignment_bytes() as int;
                        let budget = old(self).spec_total_samples() - old(self).spec_samples_processed();
                        let k = relay_frames(m.valid_length as int, ocap, align, budget);
                        let n = k * align;
                        &&& r == Ok::<ProcessStatus, Error>(
                            if crate::element::is_terminal(m.position) {
                                ProcessStatus::Eof
                            } else {
                                ProcessStatus::Fine
                            },
                        )
                        &&& final(self).spec_samples_processed() == old(self).spec_samples_processed() + k
                        &&& final(self).spec_phase() == (if crate::element::is_terminal(
                            m.position,
                        ) {
                            Phase::Stopped
                        } else {
                            Phase::Running
                        })
                        &&& final(self).spec_info() == old(self).spec_info()
                        &&& final(self).spec_total_samples() == old(self).spec_total_samples()
                        &&& (*final(in_port) matches InPort::Consumer(s2) && {
                            &&& s2.spec_state() == State::Empty
                            &&& s2.spec_buffer() == Some(b)
                        })
                        &&& (*final(out_port) matches OutPort::Producer(s3) && {
                            &&& s3.spec_state() == State::Full
                            &&& s3.spec_buffer() matches Some(ob) && ob.len() == ocap && (forall|
                                i: int,
                            |
                                0 <= i < n ==> ob[i] == b[i]) && (forall|i: int|
                                n <= i < ocap ==> ob[i] == outs.spec_buffer()->0[i])
                            &&& s3.spec_metadata() == Some(
                                Metadata { position: m.position, valid_length: n as usize },
                            )
                        })
                    }
                })
            }),
    {
        match self.phase {
            Phase::Initialized | Phase::Running => {},
            _ => {
                return Err(Error::InvalidState);
            },
        }
        match (in_port, out_port) {
            (InPort::Consumer(ins), OutPort::Producer(outs)) => {
                let in_payload = match ins.acquire_read() {
                    Ok(p) => p,
                    Err(e) => {
                        return Err(e);
                    },
                };
                let mut out_payload = match outs.acquire_write() {
                    Ok(p) => p,
                    Err(e) => {
                        // hand the input chunk back untouched so the
                        // producer side is not blocked forever
                        match ins.release_transform(in_payload) {
                            Ok(()) => {},
                            Err(_) => {
                                proof {
                                    assert(false);
                                }
                            },
                        }
                        return Err(e);
                    },
                };
                proof {
                    assert((self.info.bits_per_sample as nat) * (self.info.channels as nat) / 8
                        >= 1 && (self.info.bits_per_sample as nat) * (self.info.channels as nat)
                        / 8 < 256) by (nonlinear_arith)
                        requires
                            self.info.bits_per_sample >= 1,
                            self.info.channels >= 1,
                            (self.info.bits_per_sample as nat) * (self.info.channels as nat) % 8
                                == 0,
                            (self.info.bits_per_sample as nat) * (self.info.channels as nat) / 8
                                < 256,
                    ;
                }
                let align = self.info.get_alignment_bytes() as usize;
                let valid = in_payload.metadata.valid_length;
                let ocap = out_payload.len();
                let smaller = if valid < ocap {
                    valid
                } else {
                    ocap
                };
                let cap_frames = smaller / align;
                let budget: u64 = self.total_samples - self.samples_processed;
                let k: usize = if (cap_frames as u64) < budget {
                    cap_frames
                } else {
                    budget as usize
                };
                proof {
                    assert((k as int) * (align as int) <= smaller as int && ((k as int) * (
                    align as int)) % (align as int) == 0) by (nonlinear_arith)
                        requires
                            align > 0,
                            (cap_frames as int) == (smaller as int) / (align as int),
                            0 <= k <= cap_frames,
                            smaller >= 0,
                    ;
                }
                let n = k * align;
                out_payload.copy_within_from(&in_payload, 0, 0, n);
                out_payload.set_valid_length(n);
                out_payload.set_position(in_payload.metadata.position);
                let terminal = matches!(
                    in_payload.metadata.position,
                    crate::payload::Position::Last | crate::payload::Position::Single
                );
                self.samples_processed = self.samples_processed + k as u64;
                match ins.release_read(in_payload) {
                    Ok(()) => {},
                    Err(_) => {
                        proof {
                            assert(false);
                        }
                    },
                }
                match outs.release_write(out_payload) {
                    Ok(()) => {},
                    Err(_) => {
                        proof {
                            assert(false);
                        }
                    },
                }
                if terminal {
                    self.phase = Phase::Stopped;
                    Ok(ProcessStatus::Eof)
                } else {
                    self.phase = Phase::Running;
                    Ok(ProcessStatus::Fine)
                }
            },
            _ => Err(Error::Unsupported),
        }
    }

    fn reset(&mut self) -> (r: Result<(), Error>)
        ensures
            old(self).spec_phase() == Phase::Uninitialized ==> *final(self) == *old(self),
            old(self).spec_phase() != Phase::Uninitialized ==> {
                &&& r is Ok
                &&& final(self).spec_samples_processed() == 0
                &&& final(self).spec_info() == old(self).spec_info()
                &&& final(self).spec_total_samples() == old(self).spec_total_samples()
            },
    {
        match self.phase {
            Phase::Uninitialized => Err(Error::InvalidState),
            _ => {
                self.samples_processed = 0;
                self.phase = Phase::Initialized;
                Ok(())
            },
        }
    }

    fn flush(&mut self) -> (r: Result<(), Error>)
        ensures
            old(self).spec_phase() == Phase::Uninitialized ==> *final(self) == *old(self),
            old(self).spec_phase() != Phase::Uninitialized ==> {
                &&& r is Ok
                &&& final(self).spec_samples_processed() == 0
                &&& final(self).spec_info() == old(self).spec_info()
                &&& final(self).spec_total_samples() == old(self).spec_total_samples()
            },
    {
        match self.phase {
            Phase::Uninitialized => Err(Error::InvalidState),
            _ => {
                self.samples_processed = 0;
                self.phase = Phase::Initialized;
                Ok(())
            },
        }
    }

    /// What remains of the relay's budget, in alignment units, capped at
    /// `u32::MAX`.
    fn available(&self) -> (r: u32)
        ensures
            r == vstd::math::min(
                vstd::math::max(self.spec_total_samples() - self.spec_samples_processed(), 0),
                u32::MAX as int,
            ),
    {
        let remaining = if self.samples_processed <= self.total_samples {
            self.total_samples - self.samples_processed
        } else {
            0
        };
        if remaining > u32::MAX as u64 {
            u32::MAX
        } else {
            remaining as u32
        }
    }
}

} // verus!
