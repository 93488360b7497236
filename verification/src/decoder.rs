//! Decoding stages: turning raw container bytes into a stream of framed
//! audio chunks.

use vstd::prelude::*;

use crate::bytestream::{le16, le32, ByteStream};
use crate::element::{position_tag, tag_position, Element, Phase, ProcessStatus};
use crate::info::Info;
use crate::payload::Metadata;
use crate::port::{InPlacePort, InPort, OutPort, PortRequirement, PortRequirements};
use crate::slot::State;
use crate::Error;

verus! {

/// Decoder runtime state.
#[derive(Debug, Clone, Copy, PartialEq, Eq, Structural)]
pub struct DecoderState {
    /// Number of samples decoded so far
    pub decoded_samples: u64,
}

/// What a successful header parse yields: the negotiated format and the
/// byte range of the audio data within the container.
pub ghost struct HeaderInfo {
    pub info: Info,
    pub data_start: int,
    pub data_end: int,
    pub bytes_per_frame: u8,
}

/// Whether the four bytes at `pos` spell the given chunk identifier.
pub open spec fn chunk_id_is(s: Seq<u8>, pos: int, a: u8, b: u8, c: u8, d: u8) -> bool {
    s[pos] == a && s[pos + 1] == b && s[pos + 2] == c && s[pos + 3] == d
}

/// Whether `s` opens with a RIFF container of form type WAVE.
pub open spec fn riff_wave_ok(s: Seq<u8>) -> bool {
    &&& s.len() >= 12
    &&& chunk_id_is(s, 0, 0x52, 0x49, 0x46, 0x46)  // "RIFF"
    &&& chunk_id_is(s, 8, 0x57, 0x41, 0x56, 0x45)  // "WAVE"
}

/// One step of the chunk walk cannot run past the end of the stream.
pub open spec fn clamped(next: int, len: int) -> int {
    if next > len {
        len
    } else {
        next
    }
}

/// The format described by a `fmt ` chunk whose payload starts at `pos`:
/// channel count and sample width are truncated to 8 bits the way the
/// fields are carried, the frame count is left as previously known.
pub open spec fn fmt_chunk_info(s: Seq<u8>, pos: int, acc: Info) -> Info {
    Info {
        channels: (le16(s[pos + 2], s[pos + 3]) % 256) as u8,
        sample_rate: le32(s[pos + 4], s[pos + 5], s[pos + 6], s[pos + 7]) as u32,
        bits_per_sample: (le16(s[pos + 14], s[pos + 15]) % 256) as u8,
        num_frames: acc.num_frames,
    }
}

/// The chunk walk of a WAV container, from offset `pos`, carrying what has
/// been found so far: the format (once a `fmt ` chunk was seen, with
/// `bpf` its frame size), and the audio byte range (once a `data` chunk
/// header was seen). The walk ends successfully as soon as both are known;
/// running out of chunk headers first is a malformed container, and a
/// truncated `fmt ` chunk is a failed read.
pub open spec fn walk(
    s: Seq<u8>,
    pos: int,
    fmt_found: bool,
    acc: Info,
    bpf: u8,
    data_found: bool,
    ds: int,
    de: int,
) -> Result<HeaderInfo, Error>
    decreases s.len() - pos,
{
    if pos < 0 || pos + 8 > s.len() {
        Err(Error::InvalidParameter)
    } else {
        let size = le32(s[pos + 4], s[pos + 5], s[pos + 6], s[pos + 7]);
        if chunk_id_is(s, pos, 0x66, 0x6d, 0x74, 0x20) {  // "fmt "
            if pos + 24 > s.len() {
                Err(Error::DeviceError)
            } else {
                let acc2 = fmt_chunk_info(s, pos + 8, acc);
                if !acc2.spec_valid() {
                    Err(Error::InvalidParameter)
                } else {
                    let bpf2 = acc2.spec_alignment_bytes();
                    let next = clamped(pos + 24 + (if size > 16 { size - 16 } else { 0 }), s.len() as int);
                    if data_found {
                        Ok(HeaderInfo { info: acc2, data_start: ds, data_end: de, bytes_per_frame: bpf2 })
                    } else {
                        walk(s, next, true, acc2, bpf2, data_found, ds, de)
                    }
                }
            }
        } else if chunk_id_is(s, pos, 0x64, 0x61, 0x74, 0x61) {  // "data"
            let ds2 = pos + 8;
            let de2 = clamped(pos + 8 + size, s.len() as int);
            let acc2 = if bpf > 0 {
                Info { num_frames: Some((size / bpf as int) as u32), ..acc }
            } else {
                acc
            };
            if fmt_found {
                Ok(HeaderInfo { info: acc2, data_start: ds2, data_end: de2, bytes_per_frame: bpf })
            } else {
                walk(s, pos + 8, fmt_found, acc2, bpf, true, ds2, de2)
            }
        } else {
            walk(s, clamped(pos + 8 + size, s.len() as int), fmt_found, acc, bpf, data_found, ds, de)
        }
    }
}

/// What parsing the header of `s` yields: the container check, then the
/// chunk walk from offset 12.
pub open spec fn parse_header_spec(s: Seq<u8>) -> Result<HeaderInfo, Error> {
    if s.len() < 12 {
        Err(Error::DeviceError)
    } else if !riff_wave_ok(s) {
        Err(Error::InvalidParameter)
    } else {
        walk(s, 12, false, Info { sample_rate: 0, channels: 0, bits_per_sample: 0, num_frames: None }, 0, false, 0, 0)
    }
}

/// A successful walk always yields a usable format and an audio range that
/// lies within the stream.
proof fn lemma_walk_ok_props(
    s: Seq<u8>,
    pos: int,
    fmt_found: bool,
    acc: Info,
    bpf: u8,
    data_found: bool,
    ds: int,
    de: int,
)
    requires
        fmt_found ==> acc.spec_valid() && bpf == acc.spec_alignment_bytes() && bpf > 0,
        data_found ==> 0 <= ds <= de <= s.len(),
    ensures
        walk(s, pos, fmt_found, acc, bpf, data_found, ds, de) matches Ok(h) ==> {
            &&& h.info.spec_valid()
            &&& h.bytes_per_frame == h.info.spec_alignment_bytes()
            &&& h.bytes_per_frame > 0
            &&& 0 <= h.data_start <= h.data_end <= s.len()
        },
    decreases s.len() - pos,
{
    if pos < 0 || pos + 8 > s.len() {
    } else {
        let size = le32(s[pos + 4], s[pos + 5], s[pos + 6], s[pos + 7]);
        if chunk_id_is(s, pos, 0x66, 0x6d, 0x74, 0x20) {
            if pos + 24 <= s.len() {
                let acc2 = fmt_chunk_info(s, pos + 8, acc);
                if acc2.spec_valid() {
                    let bpf2 = acc2.spec_alignment_bytes();
                    assert(bpf2 > 0) by {
                        assert((acc2.bits_per_sample as nat) * (acc2.channels as nat) / 8 >= 1
                            && (acc2.bits_per_sample as nat) * (acc2.channels as nat) / 8 < 256) by (nonlinear_arith)
                            requires
                                acc2.bits_per_sample >= 1,
                                acc2.channels >= 1,
                                (acc2.bits_per_sample as nat) * (acc2.channels as nat) % 8 == 0,
                                (acc2.bits_per_sample as nat) * (acc2.channels as nat) / 8 < 256;
                    }
                    let next = clamped(pos + 24 + (if size > 16 { size - 16 } else { 0 }), s.len() as int);
                    if !data_found {
                        lemma_walk_ok_props(s, next, true, acc2, bpf2, data_found, ds, de);
                    }
                }
            }
        } else if chunk_id_is(s, pos, 0x64, 0x61, 0x74, 0x61) {
            let ds2 = pos + 8;
            let de2 = clamped(pos + 8 + size, s.len() as int);
            let acc2 = if bpf > 0 {
                Info { num_frames: Some((size / bpf as int) as u32), ..acc }
            } else {
                acc
            };
            if !fmt_found {
                lemma_walk_ok_props(s, pos + 8, fmt_found, acc2, bpf, true, ds2, de2);
            }
        } else {
            lemma_walk_ok_props(
                s,
                clamped(pos + 8 + size, s.len() as int),
                fmt_found,
                acc,
                bpf,
                data_found,
                ds,
                de,
            );
        }
    }
}

/// A simple WAV decoder.
///
/// The decoder owns a seekable byte stream holding the whole container,
/// parses the WAV header during `initialize`, and from then on produces
/// raw audio chunks downstream, each tagged with its stream position.
pub struct WavDecoder {
    stream: ByteStream,
    info: Option<Info>,
    data_start: usize,
    data_end: usize,
    current_frame: usize,
    bytes_per_frame: u8,
    is_first_chunk: bool,
    /// The chunk granularity the decoder was configured with; a hint for
    /// whoever sizes the connecting slot.
    frames_per_process: u16,
    phase: Phase,
}

impl WavDecoder {
    /// The container bytes the decoder reads from.
    pub closed spec fn spec_bytes(&self) -> Seq<u8> {
        self.stream.bytes()
    }

    /// The negotiated output format, once the header is parsed.
    pub closed spec fn spec_info(&self) -> Option<Info> {
        self.info
    }

    pub closed spec fn spec_data_start(&self) -> int {
        self.data_start as int
    }

    pub closed spec fn spec_data_end(&self) -> int {
        self.data_end as int
    }

    pub closed spec fn spec_current_frame(&self) -> int {
        self.current_frame as int
    }

    pub closed spec fn spec_bytes_per_frame(&self) -> u8 {
        self.bytes_per_frame
    }

    pub closed spec fn spec_is_first_chunk(&self) -> bool {
        self.is_first_chunk
    }

    /// Where the stage stands in its lifecycle.
    pub closed spec fn spec_phase(&self) -> Phase {
        self.phase
    }

    /// The byte offset of the next frame to be emitted.
    pub open spec fn spec_cur_pos(&self) -> int {
        self.spec_data_start() + self.spec_current_frame() * self.spec_bytes_per_frame()
    }

    /// How many audio bytes remain to be emitted.
    pub open spec fn spec_remaining(&self) -> int {
        self.spec_data_end() - self.spec_cur_pos()
    }


    /// Creates a new WAV decoder over the container held by `stream`.
    pub fn new(stream: ByteStream, frames_per_process: u16) -> (r: Self)
        requires
            stream.wf(),
        ensures
            r.wf(),
            r.spec_bytes() == stream.bytes(),
            r.spec_info() is None,
            r.spec_phase() == Phase::Uninitialized,
            r.spec_is_first_chunk(),
    {
        WavDecoder {
            stream,
            info: None,
            data_start: 0,
            data_end: 0,
            current_frame: 0,
            bytes_per_frame: 0,
            is_first_chunk: true,
            frames_per_process,
            phase: Phase::Uninitialized,
        }
    }

    /// Parses the WAV header: checks the RIFF/WAVE container, walks the
    /// chunks for `fmt ` and `data`, and commits the found format and
    /// audio range. On failure the decoder's fields are left untouched
    /// (only the stream cursor has moved).
    fn parse_header(&mut self) -> (r: Result<(), Error>)
        requires
            old(self).wf(),
            old(self).spec_phase() == Phase::Uninitialized,
        ensures
            final(self).wf(),
            final(self).spec_bytes() == old(self).spec_bytes(),
            r is Ok <==> parse_header_spec(old(self).spec_bytes()) is Ok,
            r matches Err(e) ==> Err::<HeaderInfo, Error>(e) == parse_header_spec(old(self).spec_bytes()),
            r is Ok ==> (parse_header_spec(old(self).spec_bytes()) matches Ok(h) && {
                &&& final(self).spec_info() == Some(h.info)
                &&& final(self).spec_data_start() == h.data_start
                &&& final(self).spec_data_end() == h.data_end
                &&& final(self).spec_bytes_per_frame() == h.bytes_per_frame
            }),
            r is Err ==> {
                &&& final(self).spec_info() == old(self).spec_info()
                &&& final(self).spec_data_start() == old(self).spec_data_start()
                &&& final(self).spec_data_end() == old(self).spec_data_end()
                &&& final(self).spec_bytes_per_frame() == old(self).spec_bytes_per_frame()
            },
            final(self).spec_current_frame() == old(self).spec_current_frame(),
            final(self).spec_is_first_chunk() == old(self).spec_is_first_chunk(),
            final(self).spec_phase() == old(self).spec_phase(),
    {
        let ghost s = self.stream.bytes();
        if self.stream.seek(0).is_err() {
            proof {
                assert(false);
            }
        }
        let header = match self.stream.read_exact(12) {
            Ok(h) => h,
            Err(_) => {
                return Err(Error::DeviceError);
            },
        };
        if !(header[0] == 0x52 && header[1] == 0x49 && header[2] == 0x46 && header[3] == 0x46
            && header[8] == 0x57 && header[9] == 0x41 && header[10] == 0x56 && header[11]
            == 0x45) {
            return Err(Error::InvalidParameter);
        }
        assert(riff_wave_ok(s));

        let mut fmt_found = false;
        let mut data_found = false;
        let mut acc = Info { sample_rate: 0, channels: 0, bits_per_sample: 0, num_frames: None };
        let mut bpf: u8 = 0;
        let mut ds: usize = 0;
        let mut de: usize = 0;

        loop
            invariant
                s == old(self).spec_bytes(),
                self.wf(),
                self.spec_phase() == Phase::Uninitialized,
                self.stream.bytes() == s,
                0 <= self.stream.spec_pos() <= s.len(),
                fmt_found ==> acc.spec_valid() && bpf == acc.spec_alignment_bytes() && bpf > 0,
                data_found ==> 0 <= ds <= de <= s.len(),
                !(fmt_found && data_found),
                parse_header_spec(s) == walk(
                    s,
                    self.stream.spec_pos(),
                    fmt_found,
                    acc,
                    bpf,
                    data_found,
                    ds as int,
                    de as int,
                ),
                self.info == old(self).info,
                self.data_start == old(self).data_start,
                self.data_end == old(self).data_end,
                self.bytes_per_frame == old(self).bytes_per_frame,
                self.current_frame == old(self).current_frame,
                self.is_first_chunk == old(self).is_first_chunk,
                self.frames_per_process == old(self).frames_per_process,
                self.phase == old(self).phase,
            decreases s.len() - self.stream.spec_pos(),
        {
            let ghost pos = self.stream.spec_pos();
            let chunk_header = match self.stream.read_exact(8) {
                Ok(h) => h,
                Err(_) => {
                    return Err(Error::InvalidParameter);
                },
            };
            let size: u32 = chunk_header[4] as u32 + chunk_header[5] as u32 * 0x100
                + chunk_header[6] as u32 * 0x1_0000 + chunk_header[7] as u32 * 0x100_0000;
            assert(size == le32(s[pos + 4], s[pos + 5], s[pos + 6], s[pos + 7]));

            if chunk_header[0] == 0x66 && chunk_header[1] == 0x6d && chunk_header[2] == 0x74
                && chunk_header[3] == 0x20 {
                // "fmt "
                let fmt_buf = match self.stream.read_exact(16) {
                    Ok(h) => h,
                    Err(_) => {
                        return Err(Error::DeviceError);
                    },
                };
                let channels_raw: u16 = fmt_buf[2] as u16 + fmt_buf[3] as u16 * 0x100;
                let sample_rate: u32 = fmt_buf[4] as u32 + fmt_buf[5] as u32 * 0x100
                    + fmt_buf[6] as u32 * 0x1_0000 + fmt_buf[7] as u32 * 0x100_0000;
                let bits_raw: u16 = fmt_buf[14] as u16 + fmt_buf[15] as u16 * 0x100;
                let channels: u8 = #[verifier::truncate] (channels_raw as u8);
                let bits_per_sample: u8 = #[verifier::truncate] (bits_raw as u8);
                proof {
                    assert(channels == channels_raw % 256 && bits_per_sample == bits_raw % 256)
                        by (bit_vector)
                        requires
                            channels == channels_raw as u8,
                            bits_per_sample == bits_raw as u8,
                    ;
                }
                let acc2 = Info { sample_rate, channels, bits_per_sample, num_frames: acc.num_frames };
                assert(acc2 == fmt_chunk_info(s, pos + 8, acc));
                if !acc2.is_valid() {
                    return Err(Error::InvalidParameter);
                }
                acc = acc2;
                bpf = acc.get_alignment_bytes();
                proof {
                    assert((acc.bits_per_sample as nat) * (acc.channels as nat) / 8 >= 1 && (
                    acc.bits_per_sample as nat) * (acc.channels as nat) / 8 < 256)
                        by (nonlinear_arith)
                        requires
                            acc.bits_per_sample >= 1,
                            acc.channels >= 1,
                            (acc.bits_per_sample as nat) * (acc.channels as nat) % 8 == 0,
                            (acc.bits_per_sample as nat) * (acc.channels as nat) / 8 < 256,
                    ;
                }
                if size > 16 {
                    let extra = (size - 16) as usize;
                    let rem = self.stream.remaining();
                    let hop = if extra < rem {
                        extra
                    } else {
                        rem
                    };
                    if self.stream.skip(hop).is_err() {
                        proof {
                            assert(false);
                        }
                    }
                }
                fmt_found = true;
                if data_found {
                    self.info = Some(acc);
                    self.data_start = ds;
                    self.data_end = de;
                    self.bytes_per_frame = bpf;
                    return Ok(());
                }
            } else if chunk_header[0] == 0x64 && chunk_header[1] == 0x61 && chunk_header[2] == 0x74
                && chunk_header[3] == 0x61 {
                // "data"
                ds = self.stream.position();
                let rest = self.stream.remaining();
                let total = self.stream.len();
                proof {
                    assert(ds + rest == total);
                }
                de = if (size as usize) < rest {
                    ds + size as usize
                } else {
                    ds + rest
                };
                if bpf > 0 {
                    acc = Info { num_frames: Some(size / bpf as u32), ..acc };
                }
                data_found = true;
                if fmt_found {
                    self.info = Some(acc);
                    self.data_start = ds;
                    self.data_end = de;
                    self.bytes_per_frame = bpf;
                    return Ok(());
                }
            } else {
                let rem = self.stream.remaining();
                let hop = if (size as usize) < rem {
                    size as usize
                } else {
                    rem
                };
                if self.stream.skip(hop).is_err() {
                    proof {
                        assert(false);
                    }
                }
            }
        }
    }

    /// The frame-aligned number of bytes the next emission carries, into a
    /// buffer of `cap` bytes: what remains, clamped to the buffer, rounded
    /// down to whole frames.
    pub open spec fn spec_chunk_len(&self, cap: int) -> int {
        vstd::math::min(self.spec_remaining(), cap) / (self.spec_bytes_per_frame() as int)
            * (self.spec_bytes_per_frame() as int)
    }
}

impl Element for WavDecoder {
    closed spec fn phase(&self) -> Phase {
        self.phase
    }

    /// The stream cursor is in range and, once initialized, the parsed
    /// format is usable and the audio range lies within the stream, with
    /// the emission cursor inside it.
    closed spec fn wf(&self) -> bool {
        &&& self.stream.wf()
        &&& self.phase != Phase::Uninitialized ==> {
            &&& self.info matches Some(i) && i.spec_valid() && self.bytes_per_frame
                == i.spec_alignment_bytes()
            &&& self.bytes_per_frame > 0
            &&& 0 <= self.data_start as int <= self.data_end as int <= self.stream.bytes().len()
            &&& self.data_start + self.current_frame * self.bytes_per_frame <= self.data_end
        }
    }

    /// A source element: it has no upstream side.
    fn get_in_info(&self) -> (r: Option<Info>)
        ensures
            r is None,
    {
        None
    }

    fn get_out_info(&self) -> (r: Option<Info>)
        ensures
            r == self.spec_info(),
    {
        self.info
    }

    fn get_port_requirements(&self) -> (r: Result<PortRequirements, Error>)
        ensures
            self.spec_phase() != Phase::Uninitialized ==> r == Ok::<PortRequirements, Error>(
                PortRequirements {
                    in_: PortRequirement::Unused,
                    out: PortRequirement::Payload(self.spec_bytes_per_frame() as u32),
                    in_place: None::<u32>,
                },
            ),
    {
        match self.phase {
            Phase::Uninitialized => Err(Error::InvalidState),
            _ => Ok(PortRequirements::source(self.bytes_per_frame as u32)),
        }
    }

    /// Parses the container header and declares the decoder a source of
    /// chunks of at least one frame.
    fn initialize(&mut self, upstream_info: Option<Info>) -> (r: Result<PortRequirements, Error>)
        ensures
            old(self).spec_phase() == Phase::Uninitialized ==> {
                &&& (r is Ok <==> parse_header_spec(old(self).spec_bytes()) is Ok)
                &&& (r matches Err(e) ==> Err::<HeaderInfo, Error>(e) == parse_header_spec(
                    old(self).spec_bytes(),
                ))
                &&& (r is Ok ==> (parse_header_spec(old(self).spec_bytes()) matches Ok(h) && {
                    &&& final(self).spec_info() == Some(h.info)
                    &&& final(self).spec_data_start() == h.data_start
                    &&& final(self).spec_data_end() == h.data_end
                    &&& final(self).spec_bytes_per_frame() == h.bytes_per_frame
                    &&& final(self).spec_current_frame() == 0
                    &&& final(self).spec_is_first_chunk()
                    &&& r == Ok::<PortRequirements, Error>(
                        PortRequirements {
                            in_: PortRequirement::Unused,
                            out: PortRequirement::Payload(h.bytes_per_frame as u32),
                            in_place: None::<u32>,
                        },
                    )
                }))
            },
            final(self).spec_bytes() == old(self).spec_bytes(),
    {
        match self.phase {
            Phase::Uninitialized => {},
            _ => {
                return Err(Error::InvalidState);
            },
        }
        let ghost s = self.stream.bytes();
        match self.parse_header() {
            Ok(()) => {},
            Err(e) => {
                return Err(e);
            },
        }
        proof {
            lemma_walk_ok_props(
                s,
                12,
                false,
                Info { sample_rate: 0, channels: 0, bits_per_sample: 0, num_frames: None },
                0,
                false,
                0,
                0,
            );
        }
        self.current_frame = 0;
        self.is_first_chunk = true;
        self.phase = Phase::Initialized;
        Ok(PortRequirements::source(self.bytes_per_frame as u32))
    }

    /// One bounded unit of work: emits one frame-aligned chunk of audio
    /// bytes downstream, tagged with its position in the stream; signals
    /// `Eof` without emitting anything once no audio bytes remain.
    fn process(
        &mut self,
        in_port: &mut InPort,
        out_port: &mut OutPort,
        inplace_port: &mut InPlacePort,
    ) -> (r: Result<ProcessStatus, Error>)
        ensures
            *final(in_port) == *old(in_port),
            *final(inplace_port) == *old(inplace_port),
            final(self).spec_bytes() == old(self).spec_bytes(),
            ({
                let phase_ok = old(self).spec_phase() == Phase::Initialized || old(self).spec_phase()
                    == Phase::Running;
                &&& (phase_ok && !(*old(out_port) matches OutPort::Producer(_)) ==> r == Err::<
                    ProcessStatus,
                    Error,
                >(Error::Unsupported) && *final(self) == *old(self) && *final(out_port) == *old(
                    out_port,
                ))
                &&& (*old(out_port) matches OutPort::Producer(slot) ==> phase_ok ==> {
                    if old(self).spec_remaining() <= 0 {
                        &&& r == Ok::<ProcessStatus, Error>(ProcessStatus::Eof)
                        &&& *final(out_port) == *old(out_port)
                        &&& final(self).spec_phase() == Phase::Stopped
                        &&& final(self).spec_current_frame() == old(self).spec_current_frame()
                        &&& final(self).spec_info() == old(self).spec_info()
                    } else if slot.spec_state() != State::Empty {
                        &&& r == Err::<ProcessStatus, Error>(
                            if slot.spec_state() == State::NoneBuffer {
                                Error::InvalidState
                            } else {
                                Error::Busy
                            },
                        )
                        &&& *final(self) == *old(self)
                        &&& *final(out_port) == *old(out_port)
                    } else {
                        let cap = slot.spec_buffer()->0.len() as int;
                        let n = old(self).spec_chunk_len(cap);
                        let cur = old(self).spec_cur_pos();
                        let rem2 = old(self).spec_remaining() - n;
                        if n == 0 {
                            &&& r == Err::<ProcessStatus, Error>(Error::InvalidParameter)
                            &&& *final(self) == *old(self)
                            &&& *final(out_port) == *old(out_port)
                        } else {
                            &&& r == Ok::<ProcessStatus, Error>(
                                if rem2 == 0 {
                                    ProcessStatus::Eof
                                } else {
                                    ProcessStatus::Fine
                                },
                            )
                            &&& (*final(out_port) matches OutPort::Producer(s2) && {
                                &&& s2.spec_state() == State::Full
                                &&& s2.spec_buffer() matches Some(b2) && b2.len() == cap && (forall|
                                    i: int,
                                |
                                    0 <= i < n ==> b2[i] == old(self).spec_bytes()[cur + i]) && (
                                forall|i: int|
                                    n <= i < cap ==> b2[i] == slot.spec_buffer()->0[i])
                                &&& s2.spec_metadata() == Some(
                                    Metadata {
                                        position: position_tag(
                                            old(self).spec_is_first_chunk(),
                                            rem2 == 0,
                                        ),
                                        valid_length: n as usize,
                                    },
                                )
                            })
                            &&& final(self).spec_current_frame() == old(self).spec_current_frame()
                                + n / (old(self).spec_bytes_per_frame() as int)
                            &&& final(self).spec_is_first_chunk() == (old(
                                self,
                            ).spec_is_first_chunk() && rem2 == 0)
                            &&& final(self).spec_phase() == (if rem2 == 0 {
                                Phase::Stopped
                            } else {
                                Phase::Running
                            })
                            &&& final(self).spec_info() == old(self).spec_info()
                            &&& final(self).spec_data_start() == old(self).spec_data_start()
                            &&& final(self).spec_data_end() == old(self).spec_data_end()
                            &&& final(self).spec_bytes_per_frame() == old(
                                self,
                            ).spec_bytes_per_frame()
                        }
                    }
                })
            }),
    {
        match self.phase {
            Phase::Initialized | Phase::Running => {},
            _ => {
                return Err(Error::InvalidState);
            },
        }
        match out_port {
            OutPort::Producer(slot) => {
                let bpf = self.bytes_per_frame as usize;
                let cur = self.data_start + self.current_frame * bpf;
                if cur >= self.data_end {
                    self.phase = Phase::Stopped;
                    return Ok(ProcessStatus::Eof);
                }
                match slot.get_state() {
                    State::Empty => {},
                    State::NoneBuffer => {
                        return Err(Error::InvalidState);
                    },
                    _ => {
                        return Err(Error::Busy);
                    },
                }
                let cap = match slot.buffer_capacity() {
                    Some(c) => c,
                    None => {
                        proof {
                            assert(false);
                        }
                        0
                    },
                };
                let left = self.data_end - cur;
                let avail = if left < cap {
                    left
                } else {
                    cap
                };
                let frames = avail / bpf;
                proof {
                    assert((frames as int) * (bpf as int) <= avail as int && ((frames as int) * (
                    bpf as int)) % (bpf as int) == 0) by (nonlinear_arith)
                        requires
                            bpf > 0,
                            (frames as int) == (avail as int) / (bpf as int),
                            avail >= 0,
                    ;
                }
                let aligned = frames * bpf;
                if aligned == 0 {
                    return Err(Error::InvalidParameter);
                }
                let mut payload = match slot.acquire_write() {
                    Ok(p) => p,
                    Err(_) => {
                        proof {
                            assert(false);
                        }
                        return Err(Error::DeviceError);
                    },
                };
                if self.stream.seek(cur).is_err() {
                    proof {
                        assert(false);
                    }
                }
                let bytes = match self.stream.read_exact(aligned) {
                    Ok(b) => b,
                    Err(_) => {
                        proof {
                            assert(false);
                        }
                        Vec::new()
                    },
                };
                payload.write_bytes(0, bytes.as_slice());
                payload.set_valid_length(aligned);

                let new_cur = cur + aligned;
                let is_last = new_cur >= self.data_end;
                let tag = tag_position(self.is_first_chunk, is_last);
                payload.set_position(tag);
                if self.is_first_chunk && !is_last {
                    self.is_first_chunk = false;
                }
                proof {
                    assert((aligned as int) / (bpf as int) == frames as int) by (nonlinear_arith)
                        requires
                            bpf > 0,
                            (aligned as int) == (frames as int) * (bpf as int),
                    ;
                    assert(self.current_frame + frames <= self.data_end) by (nonlinear_arith)
                        requires
                            bpf >= 1,
                            self.current_frame >= 0,
                            frames >= 0,
                            self.data_start >= 0,
                            self.data_end >= 0,
                            (self.current_frame as int) * (bpf as int) + (frames as int) * (
                            bpf as int) + self.data_start <= self.data_end,
                    ;
                    assert((self.current_frame + frames) * (bpf as int) == self.current_frame * (
                    bpf as int) + frames * (bpf as int)) by (nonlinear_arith);
                }
                self.current_frame = self.current_frame + frames;
                match slot.release(payload) {
                    Ok(()) => {},
                    Err(_) => {
                        proof {
                            assert(false);
                        }
                    },
                }
                if is_last {
                    self.phase = Phase::Stopped;
                    Ok(ProcessStatus::Eof)
                } else {
                    self.phase = Phase::Running;
                    Ok(ProcessStatus::Fine)
                }
            },
            _ => Err(Error::Unsupported),
        }
    }

    /// Returns to `Initialized`, rewinding to the first frame and
    /// forgetting any in-flight progress; the parsed header is kept.
    fn reset(&mut self) -> (r: Result<(), Error>)
        ensures
            old(self).spec_phase() != Phase::Uninitialized ==> {
                &&& r is Ok
                &&& final(self).spec_current_frame() == 0
                &&& final(self).spec_is_first_chunk()
                &&& final(self).spec_info() == old(self).spec_info()
                &&& final(self).spec_bytes() == old(self).spec_bytes()
            },
            old(self).spec_phase() == Phase::Uninitialized ==> *final(self) == *old(self),
    {
        match self.phase {
            Phase::Uninitialized => Err(Error::InvalidState),
            _ => {
                self.current_frame = 0;
                self.is_first_chunk = true;
                self.phase = Phase::Initialized;
                Ok(())
            },
        }
    }

    fn flush(&mut self) -> (r: Result<(), Error>)
        ensures
            old(self).spec_phase() != Phase::Uninitialized ==> {
                &&& r is Ok
                &&& final(self).spec_current_frame() == 0
                &&& final(self).spec_is_first_chunk()
                &&& final(self).spec_info() == old(self).spec_info()
                &&& final(self).spec_bytes() == old(self).spec_bytes()
            },
            old(self).spec_phase() == Phase::Uninitialized ==> *final(self) == *old(self),
    {
        match self.phase {
            Phase::Uninitialized => Err(Error::InvalidState),
            _ => {
                self.current_frame = 0;
                self.is_first_chunk = true;
                self.phase = Phase::Initialized;
                Ok(())
            },
        }
    }

    /// How many frames remain to be decoded, `u32::MAX` when the total is
    /// unknown.
    fn available(&self) -> (r: u32)
        ensures
            r == (match self.spec_info() {
                Some(i) => match i.num_frames {
                    Some(nf) => if nf > self.spec_current_frame() {
                        (nf - self.spec_current_frame()) as u32
                    } else {
                        0u32
                    },
                    None => u32::MAX,
                },
                None => u32::MAX,
            }),
    {
        match &self.info {
            Some(i) => match i.num_frames {
                Some(nf) => {
                    if (nf as usize) > self.current_frame {
                        (nf as usize - self.current_frame) as u32
                    } else {
                        0
                    }
                },
                None => u32::MAX,
            },
            None => u32::MAX,
        }
    }
}

} // verus!
