use embedded_audio::bytestream::ByteStream;
use embedded_audio::decoder::WavDecoder;
use embedded_audio::element::{Element, ProcessStatus};
use embedded_audio::encoder::WavEncoder;
use embedded_audio::info::Info;
use embedded_audio::payload::Position;
use embedded_audio::port::{InPlacePort, InPort, OutPort, PortRequirement};
use embedded_audio::slot::{Slot, State};
use embedded_audio::Error;

// Helper to generate valid WAV file data for tests.
fn create_valid_wav_data() -> Vec<u8> {
    let mut data = Vec::new();
    let num_frames: u32 = 64;
    let channels: u16 = 2;
    let bits_per_sample: u16 = 16;
    let sample_rate: u32 = 44100;
    let bytes_per_frame: u32 = (channels * (bits_per_sample / 8)) as u32;
    let data_size: u32 = num_frames * bytes_per_frame;
    let file_size: u32 = 44 - 8 + data_size;

    // RIFF chunk descriptor
    data.extend_from_slice(b"RIFF");
    data.extend_from_slice(&file_size.to_le_bytes());
    data.extend_from_slice(b"WAVE");

    // "fmt " sub-chunk
    data.extend_from_slice(b"fmt ");
    data.extend_from_slice(&16u32.to_le_bytes());
    data.extend_from_slice(&1u16.to_le_bytes());
    data.extend_from_slice(&channels.to_le_bytes());
    data.extend_from_slice(&sample_rate.to_le_bytes());
    let byte_rate = sample_rate * bytes_per_frame;
    data.extend_from_slice(&byte_rate.to_le_bytes());
    data.extend_from_slice(&(bytes_per_frame as u16).to_le_bytes());
    data.extend_from_slice(&bits_per_sample.to_le_bytes());

    // "data" sub-chunk
    data.extend_from_slice(b"data");
    data.extend_from_slice(&data_size.to_le_bytes());
    data.extend_from_slice(&vec![0; data_size as usize]);

    data
}

// The same container with a caller-chosen data section.
fn wav_with_data(channels: u16, bits: u16, audio: &[u8]) -> Vec<u8> {
    let mut data = Vec::new();
    data.extend_from_slice(b"RIFF");
    data.extend_from_slice(&((36 + audio.len()) as u32).to_le_bytes());
    data.extend_from_slice(b"WAVE");
    data.extend_from_slice(b"fmt ");
    data.extend_from_slice(&16u32.to_le_bytes());
    data.extend_from_slice(&1u16.to_le_bytes());
    data.extend_from_slice(&channels.to_le_bytes());
    data.extend_from_slice(&44100u32.to_le_bytes());
    let bpf = channels * (bits / 8);
    data.extend_from_slice(&(44100u32 * bpf as u32).to_le_bytes());
    data.extend_from_slice(&bpf.to_le_bytes());
    data.extend_from_slice(&bits.to_le_bytes());
    data.extend_from_slice(b"data");
    data.extend_from_slice(&(audio.len() as u32).to_le_bytes());
    data.extend_from_slice(audio);
    data
}

#[test]
fn test_header_parsing_with_mock_data() {
    let wav_data = create_valid_wav_data();
    let mut decoder = WavDecoder::new(ByteStream::new(wav_data), 64);

    decoder.initialize(None).expect("Parsing generated header should succeed");

    let info = decoder.get_out_info().unwrap();
    assert_eq!(info.sample_rate, 44100);
    assert_eq!(info.channels, 2);
    assert_eq!(info.bits_per_sample, 16);
    assert_eq!(info.num_frames, Some(64));
}

#[test]
fn test_invalid_header_fails_parsing() {
    // initialize must return an error for an invalid RIFF header.
    let mut invalid_data = create_valid_wav_data();
    invalid_data[0..4].copy_from_slice(b"NOPE");
    let mut decoder = WavDecoder::new(ByteStream::new(invalid_data), 64);

    let result = decoder.initialize(None);
    assert!(result.is_err(), "Parsing invalid header should fail");
    assert!(matches!(result.unwrap_err(), Error::InvalidParameter));
    assert!(decoder.get_out_info().is_none(), "Info should not be set after a failed parse");
}

#[test]
fn test_truncated_fmt_chunk_is_a_read_failure() {
    let mut data = Vec::new();
    data.extend_from_slice(b"RIFF");
    data.extend_from_slice(&100u32.to_le_bytes());
    data.extend_from_slice(b"WAVE");
    data.extend_from_slice(b"fmt ");
    data.extend_from_slice(&16u32.to_le_bytes());
    data.extend_from_slice(&[1, 0, 2, 0]); // the file ends inside the chunk
    let mut decoder = WavDecoder::new(ByteStream::new(data), 64);
    assert_eq!(decoder.initialize(None).unwrap_err(), Error::DeviceError);
}

#[test]
fn test_decoder_emits_first_middle_last() {
    // Position sequencing: a 3-chunk stream must tag exactly First,
    // Middle, Last in that order.
    let audio: Vec<u8> = (0u8..12).collect();
    let data = wav_with_data(2, 16, &audio); // 3 frames of 4 bytes
    let mut decoder = WavDecoder::new(ByteStream::new(data), 1);
    let reqs = decoder.initialize(None).unwrap();
    assert_eq!(reqs.out, PortRequirement::Payload(4));

    let mut in_port = InPort::new_none();
    let mut inplace_port = InPlacePort::new_none();
    let mut out_port = OutPort::Producer(Slot::new(Some(vec![0u8; 4])));

    let mut tags = Vec::new();
    let mut statuses = Vec::new();
    for _ in 0..3 {
        let status = decoder.process(&mut in_port, &mut out_port, &mut inplace_port).unwrap();
        statuses.push(status);
        let slot = match &mut out_port {
            OutPort::Producer(s) => s,
            _ => panic!(),
        };
        let payload = slot.acquire_read().unwrap();
        tags.push(payload.metadata.position);
        assert_eq!(payload.metadata.valid_length, 4);
        slot.release(payload).unwrap();
    }
    assert_eq!(tags, vec![Position::First, Position::Middle, Position::Last]);
    assert_eq!(statuses, vec![ProcessStatus::Fine, ProcessStatus::Fine, ProcessStatus::Eof]);
}

#[test]
fn test_decoder_single_chunk_stream() {
    // A 1-chunk stream must tag Single.
    let audio: Vec<u8> = (0u8..12).collect();
    let data = wav_with_data(2, 16, &audio);
    let mut decoder = WavDecoder::new(ByteStream::new(data), 3);
    decoder.initialize(None).unwrap();

    let mut in_port = InPort::new_none();
    let mut inplace_port = InPlacePort::new_none();
    let mut out_port = OutPort::Producer(Slot::new(Some(vec![0u8; 12])));

    let status = decoder.process(&mut in_port, &mut out_port, &mut inplace_port).unwrap();
    assert_eq!(status, ProcessStatus::Eof);
    let slot = match &mut out_port {
        OutPort::Producer(s) => s,
        _ => panic!(),
    };
    let payload = slot.acquire_read().unwrap();
    assert_eq!(payload.metadata.position, Position::Single);
    assert_eq!(&payload.data[..], &audio[..]);
    slot.release(payload).unwrap();
}

#[test]
fn test_decoder_empty_stream_signals_eof_without_payload() {
    // An immediately-empty stream must signal Eof without ever yielding a
    // payload.
    let data = wav_with_data(2, 16, &[]);
    let mut decoder = WavDecoder::new(ByteStream::new(data), 1);
    decoder.initialize(None).unwrap();

    let mut in_port = InPort::new_none();
    let mut inplace_port = InPlacePort::new_none();
    let mut out_port = OutPort::Producer(Slot::new(Some(vec![0u8; 4])));

    let status = decoder.process(&mut in_port, &mut out_port, &mut inplace_port).unwrap();
    assert_eq!(status, ProcessStatus::Eof);
    let slot = match &mut out_port {
        OutPort::Producer(s) => s,
        _ => panic!(),
    };
    assert_eq!(slot.get_state(), State::Empty, "no chunk may have been published");
}

#[test]
fn test_decoder_process_before_initialize_is_invalid_state() {
    let data = create_valid_wav_data();
    let mut decoder = WavDecoder::new(ByteStream::new(data), 64);
    let mut in_port = InPort::new_none();
    let mut inplace_port = InPlacePort::new_none();
    let mut out_port = OutPort::Producer(Slot::new(Some(vec![0u8; 16])));
    let r = decoder.process(&mut in_port, &mut out_port, &mut inplace_port);
    assert_eq!(r.unwrap_err(), Error::InvalidState);
}

#[test]
fn test_decoder_port_requirements_before_initialize() {
    // get_port_requirements before initialize must fail with InvalidState.
    let decoder = WavDecoder::new(ByteStream::new(create_valid_wav_data()), 64);
    assert_eq!(decoder.get_port_requirements().unwrap_err(), Error::InvalidState);
}

#[test]
fn test_decoder_reset_rewinds() {
    let audio: Vec<u8> = (0u8..8).collect();
    let data = wav_with_data(2, 16, &audio);
    let mut decoder = WavDecoder::new(ByteStream::new(data), 1);
    decoder.initialize(None).unwrap();

    let mut in_port = InPort::new_none();
    let mut inplace_port = InPlacePort::new_none();
    let mut out_port = OutPort::Producer(Slot::new(Some(vec![0u8; 4])));
    decoder.process(&mut in_port, &mut out_port, &mut inplace_port).unwrap();
    {
        let slot = match &mut out_port {
            OutPort::Producer(s) => s,
            _ => panic!(),
        };
        let p = slot.acquire_read().unwrap();
        assert_eq!(p.metadata.position, Position::First);
        slot.release(p).unwrap();
    }

    decoder.reset().unwrap();
    decoder.process(&mut in_port, &mut out_port, &mut inplace_port).unwrap();
    let slot = match &mut out_port {
        OutPort::Producer(s) => s,
        _ => panic!(),
    };
    let p = slot.acquire_read().unwrap();
    assert_eq!(p.metadata.position, Position::First, "reset must restart the stream");
    assert_eq!(&p.data[..], &audio[..4]);
    slot.release(p).unwrap();
}

#[test]
fn test_process_writes_header_and_data() {
    let mut encoder = WavEncoder::new(64);
    let info = Info { sample_rate: 44100, channels: 1, bits_per_sample: 16, num_frames: None };

    let requirements = encoder.initialize(Some(info)).unwrap();
    assert_eq!(requirements.in_, PortRequirement::Payload(2));

    let mut slot = Slot::new(Some(vec![0u8; 4]));
    let mut p = slot.acquire_write().unwrap();
    p.write_bytes(0, &[0x12, 0x34, 0x56, 0x78]);
    p.set_valid_length(4);
    p.set_position(Position::First);
    slot.release(p).unwrap();

    let mut in_port = InPort::Consumer(slot);
    let mut out_port = OutPort::new_none();
    let mut in_place_port = InPlacePort::new_none();

    encoder.process(&mut in_port, &mut out_port, &mut in_place_port).unwrap();

    let written_data = encoder.get_writer_data();
    // 4 bytes / (16 bits / 8 * 1 channel) = 2 frames appended after the header
    assert_eq!(written_data.len(), 44 + 4);
    assert_eq!(&written_data[44..48], &[0x12, 0x34, 0x56, 0x78]);
    // Header sizes should still be 0 because it wasn't the last packet.
    assert_eq!(&written_data[4..8], &[0, 0, 0, 0]);
    assert_eq!(&written_data[40..44], &[0, 0, 0, 0]);
}

#[test]
fn test_process_last_chunk_updates_header() {
    let mut encoder = WavEncoder::new(300);
    let info = Info { sample_rate: 8000, channels: 2, bits_per_sample: 16, num_frames: None };

    encoder.initialize(Some(info)).unwrap();

    let mut slot = Slot::new(Some(vec![0u8; 1024]));
    let mut p = slot.acquire_write().unwrap();
    let ones = vec![1u8; 1024];
    p.write_bytes(0, &ones);
    p.set_valid_length(1024);
    p.set_position(Position::Last); // This IS the last packet
    slot.release(p).unwrap();

    let mut in_port = InPort::Consumer(slot);
    let mut out_port = OutPort::new_none();
    let mut in_place_port = InPlacePort::new_none();

    let status = encoder.process(&mut in_port, &mut out_port, &mut in_place_port).unwrap();
    assert_eq!(status, ProcessStatus::Eof);

    // 1024 bytes / (16 bits / 8 * 2 channels) = 256 frames
    let data_after_process = encoder.get_writer_data();
    let data_size = 1024u32;
    let file_size = 36 + data_size;

    assert_eq!(&data_after_process[4..8], &file_size.to_le_bytes(), "File size was not updated correctly");
    assert_eq!(&data_after_process[40..44], &data_size.to_le_bytes(), "Data chunk size was not updated correctly");
}

#[test]
fn test_decoder_available_counts_down() {
    let data = create_valid_wav_data(); // 64 frames of 4 bytes
    let mut decoder = WavDecoder::new(ByteStream::new(data), 64);
    decoder.initialize(None).unwrap();
    assert_eq!(decoder.available(), 64);

    let mut in_port = InPort::new_none();
    let mut inplace_port = InPlacePort::new_none();
    let mut out_port = OutPort::Producer(Slot::new(Some(vec![0u8; 64])));
    decoder.process(&mut in_port, &mut out_port, &mut inplace_port).unwrap();
    assert_eq!(decoder.available(), 48, "16 frames of 4 bytes were emitted");
}

#[test]
fn test_encoder_finalize_without_terminal_chunk() {
    let mut encoder = WavEncoder::new(64);
    let info = Info { sample_rate: 44100, channels: 1, bits_per_sample: 16, num_frames: None };
    encoder.initialize(Some(info)).unwrap();

    let mut slot = Slot::new(Some(vec![0u8; 8]));
    let mut p = slot.acquire_write().unwrap();
    p.write_bytes(0, &[1, 2, 3, 4, 5, 6, 7, 8]);
    p.set_valid_length(8);
    p.set_position(Position::Middle);
    slot.release(p).unwrap();

    let mut in_port = InPort::Consumer(slot);
    let mut out_port = OutPort::new_none();
    let mut inplace = InPlacePort::new_none();
    let status = encoder.process(&mut in_port, &mut out_port, &mut inplace).unwrap();
    assert_eq!(status, ProcessStatus::Fine, "a middle chunk does not end the stream");

    // The stream ended without a terminal chunk: finalize patches the
    // header the same way a Last chunk would have.
    encoder.finalize().unwrap();
    let data = encoder.get_writer_data();
    assert_eq!(&data[4..8], &(36u32 + 8).to_le_bytes());
    assert_eq!(&data[40..44], &8u32.to_le_bytes());
}

#[test]
fn test_encoder_reset_starts_fresh_container() {
    let mut encoder = WavEncoder::new(64);
    let info = Info { sample_rate: 44100, channels: 1, bits_per_sample: 16, num_frames: None };
    encoder.initialize(Some(info)).unwrap();

    let mut slot = Slot::new(Some(vec![0u8; 4]));
    let mut p = slot.acquire_write().unwrap();
    p.write_bytes(0, &[9, 9, 9, 9]);
    p.set_valid_length(4);
    p.set_position(Position::Middle);
    slot.release(p).unwrap();

    let mut in_port = InPort::Consumer(slot);
    let mut out_port = OutPort::new_none();
    let mut inplace = InPlacePort::new_none();
    encoder.process(&mut in_port, &mut out_port, &mut inplace).unwrap();
    assert_eq!(encoder.get_writer_data().len(), 48);

    encoder.reset().unwrap();
    let data = encoder.get_writer_data();
    assert_eq!(data.len(), 44, "reset discards the appended audio");
    assert_eq!(&data[0..4], b"RIFF");
    assert_eq!(&data[40..44], &[0, 0, 0, 0]);
}

#[test]
fn test_encoder_rejects_missing_or_bad_format() {
    let mut encoder = WavEncoder::new(64);
    assert_eq!(encoder.initialize(None).unwrap_err(), Error::InvalidParameter);

    let mut encoder = WavEncoder::new(64);
    let bad = Info { sample_rate: 0, channels: 0, bits_per_sample: 0, num_frames: None };
    assert_eq!(encoder.initialize(Some(bad)).unwrap_err(), Error::InvalidParameter);
}

#[test]
fn test_decode_then_encode_round_trips_audio() {
    // A two-stage pipeline: decoder -> slot -> encoder, driven to Eof.
    let audio: Vec<u8> = (0u8..64).collect();
    let container = wav_with_data(2, 16, &audio);
    let mut decoder = WavDecoder::new(ByteStream::new(container), 4);
    let dec_reqs = decoder.initialize(None).unwrap();
    let info = decoder.get_out_info().unwrap();

    let mut encoder = WavEncoder::new(4);
    let enc_reqs = encoder.initialize(Some(info)).unwrap();

    // The assembler matches the decoder's out-side with the encoder's
    // in-side and sizes the slot accordingly.
    let link = embedded_audio::port::negotiate(&dec_reqs.out, &enc_reqs.in_).unwrap();
    let min = match link {
        embedded_audio::port::Link::Slot(m) => m as usize,
        _ => panic!("payload sides must negotiate a slot"),
    };
    let mut slot = Slot::new(Some(vec![0u8; min.max(16)]));

    let mut none_in = InPort::new_none();
    let mut none_out = OutPort::new_none();
    let mut none_inplace = InPlacePort::new_none();

    for _ in 0..16 {
        let mut out_port = OutPort::Producer(slot);
        let status = decoder.process(&mut none_in, &mut out_port, &mut none_inplace).unwrap();
        let s = match out_port {
            OutPort::Producer(s) => s,
            _ => panic!(),
        };
        let mut in_port = InPort::Consumer(s);
        if matches!(s_state(&in_port), State::Full) {
            encoder.process(&mut in_port, &mut none_out, &mut none_inplace).unwrap();
        }
        slot = match in_port {
            InPort::Consumer(s) => s,
            _ => panic!(),
        };
        if status == ProcessStatus::Eof {
            break;
        }
    }

    let out = encoder.get_writer_data();
    assert_eq!(out.len(), 44 + audio.len());
    assert_eq!(&out[44..], &audio[..], "decoded and re-encoded audio must match");
    assert_eq!(&out[40..44], &(audio.len() as u32).to_le_bytes());
}

fn s_state(port: &InPort) -> State {
    match port {
        InPort::Consumer(s) => s.get_state(),
        _ => State::NoneBuffer,
    }
}
