use embedded_audio::bytestream::ByteStream;
use embedded_audio::databus::{Consumer, Producer, Transformer};
use embedded_audio::element::{tag_position, Element, ProcessStatus};
use embedded_audio::info::Info;
use embedded_audio::payload::{Metadata, Position};
use embedded_audio::pipeline::DummyWriter;
use embedded_audio::port::{negotiate, Dmy, InPlacePort, InPort, Link, OutPort, PortRequirement};
use embedded_audio::relay::Relay;
use embedded_audio::slot::{Slot, State};
use embedded_audio::stream::{CapacityTooSmallError, Config};
use embedded_audio::Error;

#[test]
fn test_position_tag_table() {
    assert_eq!(tag_position(true, true), Position::Single);
    assert_eq!(tag_position(true, false), Position::First);
    assert_eq!(tag_position(false, true), Position::Last);
    assert_eq!(tag_position(false, false), Position::Middle);
}

#[test]
fn test_negotiate_matches_requirements() {
    assert_eq!(
        negotiate(&PortRequirement::Payload(4), &PortRequirement::Payload(16)).unwrap(),
        Link::Slot(16)
    );
    assert_eq!(
        negotiate(&PortRequirement::Payload(32), &PortRequirement::Payload(8)).unwrap(),
        Link::Slot(32)
    );
    assert_eq!(negotiate(&PortRequirement::IO, &PortRequirement::IO).unwrap(), Link::Raw);
    assert_eq!(negotiate(&PortRequirement::Unused, &PortRequirement::Unused).unwrap(), Link::Unused);
    // A mismatch is a construction-time error.
    assert_eq!(
        negotiate(&PortRequirement::Payload(4), &PortRequirement::IO).unwrap_err(),
        Error::Unsupported
    );
    assert_eq!(
        negotiate(&PortRequirement::Unused, &PortRequirement::Payload(4)).unwrap_err(),
        Error::Unsupported
    );
}

#[test]
fn test_info_arithmetic() {
    let info = Info { sample_rate: 44100, channels: 2, bits_per_sample: 16, num_frames: Some(441) };
    assert_eq!(info.get_alignment_bytes(), 4);
    assert_eq!(info.get_bit_rate(), 44100 * 2 * 16);
    assert_eq!(info.get_duration_ms(), Some(10));
    assert_eq!(info.down_to_alignment(1023), 1020);
    assert_eq!(info.down_to_alignment(4), 4);
    assert!(info.is_valid());

    let silent = Info::default();
    assert_eq!(silent.get_duration_ms(), None);
    assert!(!silent.is_valid());
}

#[test]
fn test_config_capacity_rules() {
    let info = Info { sample_rate: 44100, channels: 2, bits_per_sample: 16, num_frames: None };
    let config = Config::default();
    // 50 ms * 44100 / 1000 * 4 bytes per frame
    let min = config.get_rb_min_capacity_bytes(&info);
    assert_eq!(min, 8820);
    // Without a chosen capacity, twice the minimum is used.
    assert_eq!(config.get_rb_capacity_bytes(&info), Ok(2 * 8820));
    // A chosen capacity must be at least a tenth larger than the minimum.
    let small = Config { rb_capacity: Some(9000), latency_ms: 50, frames_per_process: 64 };
    assert_eq!(small.get_rb_capacity_bytes(&info), Err(CapacityTooSmallError));
    let enough = Config { rb_capacity: Some(9702), latency_ms: 50, frames_per_process: 64 };
    assert_eq!(enough.get_rb_capacity_bytes(&info), Ok(9702));
    // The sample-field variant computes the same bound here.
    assert_eq!(config.get_rb_min_capacity(&info), 8820);
    assert_eq!(config.get_rb_capacity(&info), Ok(2 * 8820));
}

#[test]
fn test_dummy_writer_discards() {
    let mut w = DummyWriter::new();
    assert_eq!(w.write(&[1, 2, 3]).unwrap(), 3);
    assert!(w.flush().is_ok());
    assert_eq!(w.available(), u32::MAX);
    assert_eq!(w.get_info().sample_rate, 0);
}

#[test]
fn test_dmy_bus_supports_nothing() {
    let mut d = Dmy;
    assert_eq!(Consumer::acquire_read(&mut d).unwrap_err(), Error::Unsupported);
    assert_eq!(Producer::acquire_write(&mut d).unwrap_err(), Error::Unsupported);
    assert_eq!(Transformer::acquire_transform(&mut d).unwrap_err(), Error::Unsupported);
}

#[test]
fn test_bytestream_round_trip() {
    let mut s = ByteStream::empty();
    s.write_u32_le(0xDEAD_BEEF).unwrap();
    s.write_bytes(&[1, 2]).unwrap();
    assert_eq!(s.len(), 6);
    s.seek(0).unwrap();
    assert_eq!(s.read_u32_le().unwrap(), 0xDEAD_BEEF);
    assert_eq!(s.read_u16_le().unwrap(), 0x0201);
    assert_eq!(s.read_u16_le().unwrap_err(), Error::DeviceError);
    assert_eq!(s.seek(99).unwrap_err(), Error::InvalidParameter);
    let bytes = s.into_inner();
    assert_eq!(bytes, vec![0xEF, 0xBE, 0xAD, 0xDE, 1, 2]);
}

#[test]
fn test_slot_databus_roles() {
    // The databus traits restrict each side to its negotiated operations.
    let mut slot = Slot::new(Some(vec![0u8; 4]));
    let mut p = Producer::acquire_write(&mut slot).unwrap();
    p.write_bytes(0, &[9, 9, 9, 9]);
    p.set_valid_length(4);
    Producer::release_write(&mut slot, p).unwrap();

    // An in-place holder gives the chunk back to the consumer, not to the
    // producer: the slot is full again afterwards.
    let t = Transformer::acquire_transform(&mut slot).unwrap();
    Transformer::release_transform(&mut slot, t).unwrap();
    assert_eq!(slot.get_state(), State::Full);

    let r = Consumer::acquire_read(&mut slot).unwrap();
    assert_eq!(&r.data[..], &[9, 9, 9, 9]);
    Consumer::release_read(&mut slot, r).unwrap();
    assert_eq!(slot.get_state(), State::Empty);
}

fn make_full_slot(bytes: &[u8], position: Position) -> Slot {
    let mut slot = Slot::new(Some(vec![0u8; bytes.len()]));
    let mut p = slot.acquire_write().unwrap();
    p.write_bytes(0, bytes);
    p.set_valid_length(bytes.len());
    p.set_position(position);
    slot.release(p).unwrap();
    slot
}

#[test]
fn test_metadata_construction_and_default() {
    let m = Metadata::new(Position::Last, 17);
    assert_eq!(m.position, Position::Last);
    assert_eq!(m.valid_length, 17);
    // Cleared metadata carries no data: zero valid bytes.
    let d: Metadata = Default::default();
    assert_eq!(d.valid_length, 0);
}

#[test]
fn test_info_equality() {
    let a = Info { sample_rate: 48000, channels: 2, bits_per_sample: 24, num_frames: None };
    let b = Info { sample_rate: 48000, channels: 2, bits_per_sample: 24, num_frames: None };
    let c = Info { num_frames: Some(1), ..a };
    assert!(a == b);
    assert!(a != c);
}

#[test]
fn test_relay_copies_chunk_through() {
    let info = Info { sample_rate: 1000, channels: 1, bits_per_sample: 16, num_frames: None };
    let mut relay = Relay::new(info, 1000); // budget: 1000 frames
    assert_eq!(relay.get_info().sample_rate, 1000);
    relay.initialize(Some(info)).unwrap();

    let in_slot = make_full_slot(&[1, 2, 3, 4, 5, 6], Position::Middle);
    let out_slot = Slot::new(Some(vec![0u8; 6]));
    let mut in_port = InPort::Consumer(in_slot);
    let mut out_port = OutPort::Producer(out_slot);
    let mut inplace = InPlacePort::new_none();

    let status = relay.process(&mut in_port, &mut out_port, &mut inplace).unwrap();
    assert_eq!(status, ProcessStatus::Fine);
    assert_eq!(relay.get_processed_samples(), 3); // 6 bytes / 2-byte frames

    let mut out_slot = match out_port {
        OutPort::Producer(s) => s,
        _ => panic!(),
    };
    let p = out_slot.acquire_read().unwrap();
    assert_eq!(&p.data[..p.metadata.valid_length], &[1, 2, 3, 4, 5, 6]);
    assert_eq!(p.metadata.position, Position::Middle);
    out_slot.release(p).unwrap();

    // The input side was emptied: its producer may write again.
    let mut in_slot = match in_port {
        InPort::Consumer(s) => s,
        _ => panic!(),
    };
    assert_eq!(in_slot.get_state(), State::Empty);
    assert!(in_slot.acquire_write().is_ok());
}

#[test]
fn test_relay_stops_on_terminal_chunk_and_honors_budget() {
    let info = Info { sample_rate: 1000, channels: 1, bits_per_sample: 16, num_frames: None };
    // 2 ms at 1000 frames/s: a budget of exactly 2 frames.
    let mut relay = Relay::new(info, 2);
    relay.initialize(None).unwrap();

    let in_slot = make_full_slot(&[1, 2, 3, 4, 5, 6], Position::Last);
    let out_slot = Slot::new(Some(vec![0u8; 6]));
    let mut in_port = InPort::Consumer(in_slot);
    let mut out_port = OutPort::Producer(out_slot);
    let mut inplace = InPlacePort::new_none();

    let status = relay.process(&mut in_port, &mut out_port, &mut inplace).unwrap();
    assert_eq!(status, ProcessStatus::Eof, "a terminal chunk stops the relay");
    assert_eq!(relay.get_processed_samples(), 2, "the budget caps what is moved");

    let mut out_slot = match out_port {
        OutPort::Producer(s) => s,
        _ => panic!(),
    };
    let p = out_slot.acquire_read().unwrap();
    assert_eq!(p.metadata.valid_length, 4, "two frames of two bytes");
    assert_eq!(&p.data[..4], &[1, 2, 3, 4]);
    assert_eq!(p.metadata.position, Position::Last);
    out_slot.release(p).unwrap();
}

#[test]
fn test_relay_rejects_mismatched_upstream_format() {
    let info = Info { sample_rate: 1000, channels: 1, bits_per_sample: 16, num_frames: None };
    let other = Info { sample_rate: 8000, channels: 2, bits_per_sample: 16, num_frames: None };
    let mut relay = Relay::new(info, 10);
    assert_eq!(relay.initialize(Some(other)).unwrap_err(), Error::InvalidParameter);
    assert_eq!(relay.get_port_requirements().unwrap_err(), Error::InvalidState);
}
