//! Encoding stages: wrapping a stream of framed audio chunks into a
//! container.

use vstd::prelude::*;

use crate::bytestream::{le16, le32, ByteStream};
use crate::element::{is_terminal, Element, Phase, ProcessStatus};
use crate::info::Info;
use crate::port::{InPlacePort, InPort, OutPort, PortRequirement, PortRequirements};
use crate::slot::State;
use crate::Error;

verus! {

/// Encoder runtime state.
#[derive(Debug, Clone, Copy, PartialEq, Eq, Structural)]
pub struct EncoderState {
    /// Number of samples encoded so far
    pub encoded_samples: u64,
}

/// The average byte rate a WAV header declares for `info`.
pub open spec fn spec_byte_rate(info: Info) -> int {
    info.sample_rate * info.channels * (info.bits_per_sample as int / 8)
}

/// The frame size (block alignment) a WAV header declares for `info`.
pub open spec fn spec_block_align(info: Info) -> int {
    info.channels * (info.bits_per_sample as int / 8)
}

/// The fixed part of a 44-byte WAV header for format `info`: everything
/// except the two size fields (the RIFF size at offset 4 and the data
/// chunk size at offset 40), which are patched when the stream ends.
pub open spec fn header_static_ok(s: Seq<u8>, info: Info) -> bool {
    &&& s.len() >= 44
    &&& s[0] == 0x52 && s[1] == 0x49 && s[2] == 0x46 && s[3] == 0x46  // "RIFF"
    &&& s[8] == 0x57 && s[9] == 0x41 && s[10] == 0x56 && s[11] == 0x45  // "WAVE"
    &&& s[12] == 0x66 && s[13] == 0x6d && s[14] == 0x74 && s[15] == 0x20  // "fmt "
    &&& le32(s[16], s[17], s[18], s[19]) == 16  // PCM fmt chunk size
    &&& le16(s[20], s[21]) == 1  // PCM format tag
    &&& le16(s[22], s[23]) == info.channels
    &&& le32(s[24], s[25], s[26], s[27]) == info.sample_rate
    &&& le32(s[28], s[29], s[30], s[31]) == spec_byte_rate(info)
    &&& le16(s[32], s[33]) == spec_block_align(info)
    &&& le16(s[34], s[35]) == info.bits_per_sample
    &&& s[36] == 0x64 && s[37] == 0x61 && s[38] == 0x74 && s[39] == 0x61  // "data"
}

/// The two size fields of a WAV header: the RIFF size at offset 4 and the
/// data chunk size at offset 40, both little-endian 32-bit (truncated, as
/// the format carries them).
pub open spec fn header_sizes_are(s: Seq<u8>, file_size: int, data_size: int) -> bool {
    &&& le32(s[4], s[5], s[6], s[7]) == file_size % 0x1_0000_0000
    &&& le32(s[40], s[41], s[42], s[43]) == data_size % 0x1_0000_0000
}

/// A simple WAV encoder.
///
/// The encoder consumes audio chunks from its input port and appends them
/// to an in-memory WAV container: the header is written when the format is
/// negotiated, audio bytes follow frame-aligned, and the header's size
/// fields are patched once the terminal chunk has arrived.
pub struct WavEncoder {
    stream: ByteStream,
    info: Option<Info>,
    encoded_frames: usize,
    header_written: bool,
    data_size_pos: usize,
    bytes_per_frame: u32,
    /// The chunk granularity the encoder was configured with; a hint for
    /// whoever sizes the connecting slot.
    frames_per_process: u16,
    phase: Phase,
}

impl WavEncoder {
    /// The bytes of the container written so far.
    pub closed spec fn spec_bytes(&self) -> Seq<u8> {
        self.stream.bytes()
    }

    /// The negotiated input format, once initialized.
    pub closed spec fn spec_info(&self) -> Option<Info> {
        self.info
    }

    /// How many whole frames have been appended to the data chunk.
    pub closed spec fn spec_encoded_frames(&self) -> int {
        self.encoded_frames as int
    }

    pub closed spec fn spec_bytes_per_frame(&self) -> int {
        self.bytes_per_frame as int
    }

    /// Where the stage stands in its lifecycle.
    pub closed spec fn spec_phase(&self) -> Phase {
        self.phase
    }

    /// The number of audio bytes in the data chunk so far.
    pub open spec fn spec_data_size(&self) -> int {
        self.spec_encoded_frames() * self.spec_bytes_per_frame()
    }

    /// Creates a new WAV encoder writing into a fresh in-memory container.
    pub fn new(frames_per_process: u16) -> (r: Self)
        ensures
            r.wf(),
            r.spec_phase() == Phase::Uninitialized,
            r.spec_bytes().len() == 0,
            r.spec_info() is None,
    {
        WavEncoder {
            stream: ByteStream::empty(),
            info: None,
            encoded_frames: 0,
            header_written: false,
            data_size_pos: 0,
            bytes_per_frame: 0,
            frames_per_process: frames_per_process,
            phase: Phase::Uninitialized,
        }
    }

    /// A borrow of the container bytes written so far.
    pub fn get_writer_data(&self) -> (r: &Vec<u8>)
        ensures
            r@ == self.spec_bytes(),
    {
        self.stream.get_ref()
    }

    /// Consumes the encoder, yielding the finished container bytes.
    pub fn into_writer_data(self) -> (r: Vec<u8>)
        ensures
            r@ == self.spec_bytes(),
    {
        self.stream.into_inner()
    }

    /// Writes the 44-byte WAV header for `info` at the start of the
    /// stream, with both size fields zero until the stream is finalized.
    fn write_header(&mut self) -> (r: Result<(), Error>)
        requires
            old(self).wf(),
            old(self).spec_phase() == Phase::Uninitialized,
            old(self).spec_info() matches Some(i) && i.spec_valid() && spec_byte_rate(i)
                <= u32::MAX,
        ensures
            r is Ok,
            final(self).stream.wf(),
            final(self).header_written,
            final(self).data_size_pos == 40,
            final(self).spec_phase() == Phase::Uninitialized,
            final(self).spec_info() == old(self).spec_info(),
            final(self).bytes_per_frame == old(self).bytes_per_frame,
            final(self).spec_bytes().len() == 44,
            final(self).stream.spec_pos() == 44,
            header_static_ok(final(self).spec_bytes(), old(self).spec_info()->0),
            header_sizes_are(final(self).spec_bytes(), 0, 0),
            final(self).spec_encoded_frames() == old(self).spec_encoded_frames(),
    {
        let info = match self.info {
            Some(i) => i,
            None => {
                proof {
                    assert(false);
                }
                return Err(Error::NotInitialized);
            },
        };
        let ch = info.channels;
        let sr = info.sample_rate;
        let bits = info.bits_per_sample;
        let bps: u64 = (bits / 8) as u64;
        proof {
            assert((sr as int) * (ch as int) <= 0xFFFF_FFFFi64 * 255) by (nonlinear_arith)
                requires
                    sr <= u32::MAX,
                    ch <= 255,
                    sr >= 0,
                    ch >= 0,
            ;
            assert((sr as int) * (ch as int) * (bps as int) <= 0xFFFF_FFFFi64 * 255 * 31)
                by (nonlinear_arith)
                requires
                    (sr as int) * (ch as int) <= 0xFFFF_FFFFi64 * 255,
                    (sr as int) * (ch as int) >= 0,
                    0 <= bps <= 31,
            ;
            assert((ch as int) * (bps as int) <= 255 * 31) by (nonlinear_arith)
                requires
                    ch <= 255,
                    bps <= 31,
                    ch >= 0,
                    bps >= 0,
            ;
        }
        let br64: u64 = sr as u64 * ch as u64 * bps;
        let br: u32 = br64 as u32;
        let ba: u16 = ch as u16 * bps as u16;
        let br0 = (br % 0x100) as u8;
        let br1 = (br / 0x100 % 0x100) as u8;
        let br2 = (br / 0x1_0000 % 0x100) as u8;
        let br3 = (br / 0x100_0000) as u8;
        let sr0 = (sr % 0x100) as u8;
        let sr1 = (sr / 0x100 % 0x100) as u8;
        let sr2 = (sr / 0x1_0000 % 0x100) as u8;
        let sr3 = (sr / 0x100_0000) as u8;
        let ba0 = (ba % 0x100) as u8;
        let ba1 = (ba / 0x100) as u8;
        proof {
            assert(le32(sr0, sr1, sr2, sr3) == sr) by (nonlinear_arith)
                requires
                    sr0 == sr % 0x100,
                    sr1 == sr / 0x100 % 0x100,
                    sr2 == sr / 0x1_0000 % 0x100,
                    sr3 == sr / 0x100_0000,
                    sr <= u32::MAX,
            ;
            assert(le32(br0, br1, br2, br3) == br) by (nonlinear_arith)
                requires
                    br0 == br % 0x100,
                    br1 == br / 0x100 % 0x100,
                    br2 == br / 0x1_0000 % 0x100,
                    br3 == br / 0x100_0000,
                    br <= u32::MAX,
            ;
            assert(le16(ba0, ba1) == ba) by (nonlinear_arith)
                requires
                    ba0 == ba % 0x100,
                    ba1 == ba / 0x100,
                    ba <= u16::MAX,
            ;
        }
        let header: [u8; 44] = [
            0x52, 0x49, 0x46, 0x46,  // "RIFF"
            0, 0, 0, 0,  // file size, patched on finalization
            0x57, 0x41, 0x56, 0x45,  // "WAVE"
            0x66, 0x6d, 0x74, 0x20,  // "fmt "
            16, 0, 0, 0,  // PCM fmt chunk size
            1, 0,  // PCM format tag
            ch, 0,  // channel count
            sr0, sr1, sr2, sr3,  // sample rate
            br0, br1, br2, br3,  // byte rate
            ba0, ba1,  // block alignment
            bits, 0,  // bits per sample
            0x64, 0x61, 0x74, 0x61,  // "data"
            0, 0, 0, 0,  // data size, patched on finalization
        ];
        if self.stream.seek(0).is_err() {
            proof {
                assert(false);
            }
        }
        let r = self.stream.write_bytes(header.as_slice());
        self.header_written = true;
        self.data_size_pos = 40;
        r
    }

    /// Patches the header's two size fields from the frames encoded so
    /// far and parks the cursor at the end of the container.
    fn update_header_sizes(&mut self) -> (r: Result<(), Error>)
        requires
            old(self).wf(),
            old(self).spec_phase() == Phase::Initialized || old(self).spec_phase()
                == Phase::Running || old(self).spec_phase() == Phase::Stopped,
        ensures
            r is Ok,
            final(self).wf(),
            final(self).spec_bytes().len() == old(self).spec_bytes().len(),
            header_sizes_are(
                final(self).spec_bytes(),
                36 + old(self).spec_data_size(),
                old(self).spec_data_size(),
            ),
            forall|j: int|
                0 <= j < old(self).spec_bytes().len() && !(4 <= j < 8) && !(40 <= j < 44)
                    ==> final(self).spec_bytes()[j] == old(self).spec_bytes()[j],
            final(self).spec_info() == old(self).spec_info(),
            final(self).spec_phase() == old(self).spec_phase(),
            final(self).spec_encoded_frames() == old(self).spec_encoded_frames(),
            final(self).spec_bytes_per_frame() == old(self).spec_bytes_per_frame(),
    {
        let total = self.stream.len();
        proof {
            assert((self.encoded_frames as int) * (self.bytes_per_frame as int) >= 0)
                by (nonlinear_arith)
                requires
                    self.encoded_frames >= 0,
                    self.bytes_per_frame >= 0,
            ;
        }
        let data_size: usize = total - 44;
        let file_size: u64 = 36u64 + data_size as u64;
        let fs32: u32 = #[verifier::truncate] (file_size as u32);
        let ds32: u32 = #[verifier::truncate] ((data_size as u64) as u32);
        proof {
            assert(fs32 == file_size % 0x1_0000_0000 && ds32 == (data_size as u64)
                % 0x1_0000_0000) by (bit_vector)
                requires
                    fs32 == file_size as u32,
                    ds32 == (data_size as u64) as u32,
            ;
        }
        if self.stream.seek(4).is_err() {
            proof {
                assert(false);
            }
        }
        if self.stream.write_u32_le(fs32).is_err() {
            proof {
                assert(false);
            }
        }
        let size_pos = self.data_size_pos;
        if self.stream.seek(size_pos).is_err() {
            proof {
                assert(false);
            }
        }
        if self.stream.write_u32_le(ds32).is_err() {
            proof {
                assert(false);
            }
        }
        let end = self.stream.len();
        if self.stream.seek(end).is_err() {
            proof {
                assert(false);
            }
        }
        Ok(())
    }

    /// Finalizes the container by patching the header sizes; meant for a
    /// stream that ended without a terminal chunk.
    pub fn finalize(&mut self) -> (r: Result<(), Error>)
        requires
            old(self).wf(),
        ensures
            r is Ok,
            final(self).wf(),
            old(self).spec_phase() == Phase::Uninitialized ==> *final(self) == *old(self),
            old(self).spec_phase() != Phase::Uninitialized ==> {
                &&& final(self).spec_bytes().len() == old(self).spec_bytes().len()
                &&& header_sizes_are(
                    final(self).spec_bytes(),
                    36 + old(self).spec_data_size(),
                    old(self).spec_data_size(),
                )
                &&& forall|j: int|
                    0 <= j < old(self).spec_bytes().len() && !(4 <= j < 8) && !(40 <= j < 44)
                        ==> final(self).spec_bytes()[j] == old(self).spec_bytes()[j]
            },
    {
        if self.header_written {
            self.update_header_sizes()
        } else {
            Ok(())
        }
    }
}

impl Element for WavEncoder {
    closed spec fn phase(&self) -> Phase {
        self.phase
    }

    /// Once initialized, the header is in place, the container holds the
    /// header plus exactly the appended frames, and the cursor sits at
    /// the end, ready to append.
    closed spec fn wf(&self) -> bool {
        &&& self.stream.wf()
        &&& self.phase == Phase::Uninitialized ==> !self.header_written && self.stream.bytes().len()
            == 0 && self.encoded_frames == 0
        &&& self.phase != Phase::Uninitialized ==> {
            &&& self.header_written
            &&& self.data_size_pos == 40
            &&& self.info matches Some(i) && i.spec_valid() && self.bytes_per_frame as int
                == i.spec_alignment_bytes() as int && spec_byte_rate(i) <= u32::MAX
            &&& self.bytes_per_frame > 0
            &&& self.stream.bytes().len() == 44 + self.encoded_frames * self.bytes_per_frame
            &&& self.stream.spec_pos() == self.stream.bytes().len()
            &&& header_static_ok(self.stream.bytes(), self.info->0)
        }
    }

    fn get_in_info(&self) -> (r: Option<Info>)
        ensures
            r == self.spec_info(),
    {
        self.info
    }

    /// A sink element: it has no downstream side.
    fn get_out_info(&self) -> (r: Option<Info>)
        ensures
            r is None,
    {
        None
    }

    fn get_port_requirements(&self) -> (r: Result<PortRequirements, Error>)
        ensures
            self.spec_phase() != Phase::Uninitialized ==> r == Ok::<PortRequirements, Error>(
                PortRequirements {
                    in_: PortRequirement::Payload(self.spec_bytes_per_frame() as u32),
                    out: PortRequirement::Unused,
                    in_place: None::<u32>,
                },
            ),
    {
        match self.phase {
            Phase::Uninitialized => Err(Error::InvalidState),
            _ => Ok(PortRequirements::sink(self.bytes_per_frame)),
        }
    }

    /// Fixes the input format, writes the container header and declares
    /// the encoder a sink for chunks of at least one frame. A format
    /// without usable frame arithmetic, or whose byte rate overflows the
    /// header's 32-bit field, is rejected with `InvalidParameter`.
    fn initialize(&mut self, upstream_info: Option<Info>) -> (r: Result<PortRequirements, Error>)
        ensures
            old(self).spec_phase() == Phase::Uninitialized ==> match upstream_info {
                Some(i) => {
                    &&& (r is Ok <==> i.spec_valid() && spec_byte_rate(i) <= u32::MAX)
                    &&& (r is Err ==> r == Err::<PortRequirements, Error>(Error::InvalidParameter)
                        && *final(self) == *old(self))
                    &&& (r is Ok ==> {
                        &&& r == Ok::<PortRequirements, Error>(
                            PortRequirements {
                                in_: PortRequirement::Payload(i.spec_alignment_bytes() as u32),
                                out: PortRequirement::Unused,
                                in_place: None::<u32>,
                            },
                        )
                        &&& final(self).spec_info() == Some(i)
                        &&& final(self).spec_bytes().len() == 44
                        &&& header_static_ok(final(self).spec_bytes(), i)
                        &&& header_sizes_are(final(self).spec_bytes(), 0, 0)
                        &&& final(self).spec_encoded_frames() == 0
                    })
                },
                None => r == Err::<PortRequirements, Error>(Error::InvalidParameter)
                    && *final(self) == *old(self),
            },
    {
        match self.phase {
            Phase::Uninitialized => {},
            _ => {
                return Err(Error::InvalidState);
            },
        }
        let info = match upstream_info {
            Some(i) => i,
            None => {
                return Err(Error::InvalidParameter);
            },
        };
        if !info.is_valid() {
            return Err(Error::InvalidParameter);
        }
        proof {
            assert((info.sample_rate as int) * (info.channels as int) <= 0xFFFF_FFFFi64 * 255)
                by (nonlinear_arith)
                requires
                    info.sample_rate <= u32::MAX,
                    info.channels <= 255,
                    info.sample_rate >= 0,
                    info.channels >= 0,
            ;
            assert((info.sample_rate as int) * (info.channels as int) * ((info.bits_per_sample
                / 8) as int) <= 0xFFFF_FFFFi64 * 255 * 31) by (nonlinear_arith)
                requires
                    (info.sample_rate as int) * (info.channels as int) <= 0xFFFF_FFFFi64 * 255,
                    (info.sample_rate as int) * (info.channels as int) >= 0,
                    0 <= (info.bits_per_sample / 8) as int <= 31,
            ;
        }
        let byte_rate: u64 = info.sample_rate as u64 * info.channels as u64 * (info.bits_per_sample
            / 8) as u64;
        if byte_rate > u32::MAX as u64 {
            return Err(Error::InvalidParameter);
        }
        self.info = Some(info);
        self.bytes_per_frame = info.get_alignment_bytes() as u32;
        proof {
            assert((info.bits_per_sample as nat) * (info.channels as nat) / 8 >= 1 && (
            info.bits_per_sample as nat) * (info.channels as nat) / 8 < 256) by (nonlinear_arith)
                requires
                    info.bits_per_sample >= 1,
                    info.channels >= 1,
                    (info.bits_per_sample as nat) * (info.channels as nat) % 8 == 0,
                    (info.bits_per_sample as nat) * (info.channels as nat) / 8 < 256,
            ;
        }
        match self.write_header() {
            Ok(()) => {},
            Err(_) => {
                proof {
                    assert(false);
                }
            },
        }
        self.encoded_frames = 0;
        self.phase = Phase::Initialized;
        Ok(PortRequirements::sink(self.bytes_per_frame))
    }

    /// One bounded unit of work: consumes one chunk from the input port
    /// and appends its whole buffer, rounded down to whole frames, to the
    /// container's data chunk; a terminal chunk additionally patches the
    /// header sizes and stops the encoder.
    fn process(
        &mut self,
        in_port: &mut InPort,
        out_port: &mut OutPort,
        inplace_port: &mut InPlacePort,
    ) -> (r: Result<ProcessStatus, Error>)
        ensures
            *final(out_port) == *old(out_port),
            *final(inplace_port) == *old(inplace_port),
            ({
                let phase_ok = old(self).spec_phase() == Phase::Initialized || old(self).spec_phase()
                    == Phase::Running;
                &&& ((phase_ok && !(*old(in_port) matches InPort::Consumer(_))) ==> r == Err::<
                    ProcessStatus,
                    Error,
                >(Error::Unsupported) && *final(self) == *old(self)
                    && *final(in_port) == *old(in_port))
                &&& (*old(in_port) matches InPort::Consumer(slot) ==> phase_ok ==> {
                    if slot.spec_state() != State::Full {
                        &&& r == Err::<ProcessStatus, Error>(
                            if slot.spec_state() == State::NoneBuffer {
                                Error::InvalidState
                            } else {
                                Error::Busy
                            },
                        )
                        &&& *final(self) == *old(self)
                        &&& *final(in_port) == *old(in_port)
                    } else {
                        let b = slot.spec_buffer()->0;
                        let m = slot.spec_metadata()->0;
                        let bpf = old(self).spec_bytes_per_frame();
                        let aligned = b.len() as int / bpf * bpf;
                        let frames2 = old(self).spec_encoded_frames() + aligned / bpf;
                        let ds2 = frames2 * bpf;
                        &&& r == Ok::<ProcessStatus, Error>(
                            if is_terminal(m.position) {
                                ProcessStatus::Eof
                            } else {
                                ProcessStatus::Fine
                            },
                        )
                        &&& final(self).spec_phase() == (if is_terminal(m.position) {
                            Phase::Stopped
                        } else {
                            Phase::Running
                        })
                        &&& final(self).spec_encoded_frames() == frames2
                        &&& final(self).spec_bytes().len() == 44 + ds2
                        &&& (forall|j: int|
                            44 + old(self).spec_data_size() <= j < 44 + ds2 ==> final(self).spec_bytes()[j] == b[j - (44 + old(self).spec_data_size())])
                        &&& (forall|j: int|
                            0 <= j < 44 + old(self).spec_data_size() && !(4 <= j < 8) && !(40 <= j
                                < 44) ==> final(self).spec_bytes()[j] == old(self).spec_bytes()[j])
                        &&& (is_terminal(m.position) ==> header_sizes_are(
                            final(self).spec_bytes(),
                            36 + ds2,
                            ds2,
                        ))
                        &&& (!is_terminal(m.position) ==> header_sizes_are(
                            final(self).spec_bytes(),
                            le32(
                                old(self).spec_bytes()[4],
                                old(self).spec_bytes()[5],
                                old(self).spec_bytes()[6],
                                old(self).spec_bytes()[7],
                            ),
                            le32(
                                old(self).spec_bytes()[40],
                                old(self).spec_bytes()[41],
                                old(self).spec_bytes()[42],
                                old(self).spec_bytes()[43],
                            ),
                        ))
                        &&& final(self).spec_info() == old(self).spec_info()
                        &&& (*final(in_port) matches InPort::Consumer(s2) && {
                            &&& s2.spec_state() == State::Empty
                            &&& s2.spec_buffer() == Some(b)
                        })
                    }
                })
            }),
    {
        match self.phase {
            Phase::Initialized | Phase::Running => {},
            _ => {
                return Err(Error::InvalidState);
            },
        }
        match in_port {
            InPort::Consumer(slot) => {
                let payload = match slot.acquire_read() {
                    Ok(p) => p,
                    Err(e) => {
                        return Err(e);
                    },
                };
                let ghost b = payload.data@;
                let ghost m = payload.metadata;
                let bpf = self.bytes_per_frame as usize;
                let len = payload.len();
                let frames = len / bpf;
                proof {
                    assert((frames as int) * (bpf as int) <= len as int && ((frames as int) * (
                    bpf as int)) % (bpf as int) == 0 && (((frames as int) * (bpf as int)) as int)
                        / (bpf as int) == frames as int) by (nonlinear_arith)
                        requires
                            bpf > 0,
                            (frames as int) == (len as int) / (bpf as int),
                            len >= 0,
                    ;
                }
                let aligned = frames * bpf;
                if aligned > 0 {
                    // the cursor already sits at the end of the container
                    let chunk = vstd::slice::slice_subrange(payload.data.as_slice(), 0, aligned);
                    if self.stream.write_bytes(chunk).is_err() {
                        proof {
                            assert(false);
                        }
                    }
                    let total2 = self.stream.len();
                    proof {
                        assert((self.encoded_frames + frames) * (bpf as int) == self.encoded_frames
                            * (bpf as int) + frames * (bpf as int)) by (nonlinear_arith);
                        assert(self.encoded_frames + frames <= total2) by (nonlinear_arith)
                            requires
                                bpf >= 1,
                                self.encoded_frames >= 0,
                                frames >= 0,
                                (self.encoded_frames as int) * (bpf as int) + (frames as int) * (
                                bpf as int) + 44 == total2 as int,
                        ;
                    }
                    self.encoded_frames = self.encoded_frames + frames;
                }
                let terminal = matches!(
                    payload.metadata.position,
                    crate::payload::Position::Last | crate::payload::Position::Single
                );
                match slot.release(payload) {
                    Ok(()) => {},
                    Err(_) => {
                        proof {
                            assert(false);
                        }
                    },
                }
                if terminal {
                    if self.update_header_sizes().is_err() {
                        proof {
                            assert(false);
                        }
                    }
                    self.phase = Phase::Stopped;
                    Ok(ProcessStatus::Eof)
                } else {
                    self.phase = Phase::Running;
                    Ok(ProcessStatus::Fine)
                }
            },
            _ => Err(Error::Unsupported),
        }
    }

    /// Returns to `Initialized` over a fresh container: the header is
    /// rewritten and everything appended so far is discarded.
    fn reset(&mut self) -> (r: Result<(), Error>)
        ensures
            old(self).spec_phase() == Phase::Uninitialized ==> *final(self) == *old(self),
            old(self).spec_phase() != Phase::Uninitialized ==> {
                &&& r is Ok
                &&& final(self).spec_info() == old(self).spec_info()
                &&& final(self).spec_encoded_frames() == 0
                &&& final(self).spec_bytes().len() == 44
            },
    {
        match self.phase {
            Phase::Uninitialized => Err(Error::InvalidState),
            _ => {
                self.stream = ByteStream::empty();
                self.header_written = false;
                self.encoded_frames = 0;
                self.phase = Phase::Uninitialized;
                match self.write_header() {
                    Ok(()) => {},
                    Err(_) => {
                        proof {
                            assert(false);
                        }
                    },
                }
                self.phase = Phase::Initialized;
                Ok(())
            },
        }
    }

    /// Like `reset`: starts a fresh container.
    fn flush(&mut self) -> (r: Result<(), Error>)
        ensures
            old(self).spec_phase() == Phase::Uninitialized ==> *final(self) == *old(self),
            old(self).spec_phase() != Phase::Uninitialized ==> {
                &&& r is Ok
                &&& final(self).spec_info() == old(self).spec_info()
                &&& final(self).spec_encoded_frames() == 0
                &&& final(self).spec_bytes().len() == 44
            },
    {
        match self.phase {
            Phase::Uninitialized => Err(Error::InvalidState),
            _ => {
                self.stream = ByteStream::empty();
                self.header_written = false;
                self.encoded_frames = 0;
                self.phase = Phase::Uninitialized;
                match self.write_header() {
                    Ok(()) => {},
                    Err(_) => {
                        proof {
                            assert(false);
                        }
                    },
                }
                self.phase = Phase::Initialized;
                Ok(())
            },
        }
    }

    /// The encoder can always accept more data.
    fn available(&self) -> (r: u32)
        ensures
            r == u32::MAX,
    {
        u32::MAX
    }
}

} // verus!
