use embedded_audio::element::{Element, ProcessStatus};
use embedded_audio::info::Info;
use embedded_audio::payload::Position;
use embedded_audio::port::{InPlacePort, InPort, OutPort};
use embedded_audio::slot::Slot;
use embedded_audio::transformer::{
    apply_gain_fixed_i16, apply_gain_fixed_i32, apply_gain_fixed_u8, Gain,
};
use embedded_audio::Error;

fn q16(gain: f32) -> i32 {
    (gain * 65536.0) as i32
}

fn fill_slot(samples: &[i16]) -> Slot {
    let mut bytes = Vec::new();
    for s in samples {
        bytes.extend_from_slice(&s.to_le_bytes());
    }
    let n = bytes.len();
    let mut slot = Slot::new(Some(vec![0u8; n]));
    let mut p = slot.acquire_write().unwrap();
    p.write_bytes(0, &bytes);
    p.set_valid_length(n);
    p.set_position(Position::Middle);
    slot.release(p).unwrap();
    slot
}

fn read_samples(slot: &mut Slot, count: usize) -> Vec<i16> {
    let p = slot.acquire_read().unwrap();
    let mut out = Vec::new();
    let mut i = 0;
    while i < count {
        out.push(i16::from_le_bytes([p.data[2 * i], p.data[2 * i + 1]]));
        i += 1;
    }
    slot.release(p).unwrap();
    out
}

#[test]
fn test_gain_process_16bit_fixed_point() {
    let info = Info::new(44100, 1, 16, None);
    let mut gain = Gain::new_fixed_q16_16(q16(2.0));
    gain.initialize(Some(info)).unwrap();

    let initial_samples: [i16; 8] = [1000, -2000, 3000, -4000, 5000, 20000, -30000, 15000];
    let slot = fill_slot(&initial_samples);

    let mut in_port = InPort::new_none();
    let mut out_port = OutPort::new_none();
    let mut inplace_port = InPlacePort::Transformer(slot);

    let result = gain.process(&mut in_port, &mut out_port, &mut inplace_port);
    assert!(result.is_ok());

    let mut slot = match inplace_port {
        InPlacePort::Transformer(s) => s,
        _ => panic!(),
    };
    let processed = read_samples(&mut slot, 8);
    assert_eq!(processed[0], 2000);
    assert_eq!(processed[1], -4000);
    assert_eq!(processed[5], i16::MAX); // 20000 * 2.0 should clamp to max
    assert_eq!(processed[6], i16::MIN); // -30000 * 2.0 should clamp to min
}

#[test]
fn test_24bit_optimization() {
    let info = Info::new(48000, 1, 24, None);
    let mut gain = Gain::new_fixed_q16_16(q16(1.25));
    gain.initialize(Some(info)).unwrap();

    // 4 samples * 3 bytes each
    let mut buffer = vec![0u8; 12];
    buffer[0..3].copy_from_slice(&[0x56, 0x34, 0x12]);
    buffer[3..6].copy_from_slice(&[0x00, 0x00, 0x80]);
    buffer[6..9].copy_from_slice(&[0xFF, 0xFF, 0x7F]);
    buffer[9..12].copy_from_slice(&[0x00, 0x00, 0x00]);

    let mut slot = Slot::new(Some(buffer));
    let mut p = slot.acquire_write().unwrap();
    p.set_valid_length(12);
    slot.release(p).unwrap();

    let mut in_port = InPort::new_none();
    let mut out_port = OutPort::new_none();
    let mut inplace_port = InPlacePort::Transformer(slot);

    let result = gain.process(&mut in_port, &mut out_port, &mut inplace_port);
    assert!(result.is_ok());

    let mut slot = match inplace_port {
        InPlacePort::Transformer(s) => s,
        _ => panic!(),
    };
    // The transformed chunk stays available to the consumer.
    let r = slot.acquire_read().unwrap();
    // sample 1: 0x123456 * 1.25 = 0x16C16B (within range, exact in Q16.16)
    assert_eq!(&r.data[0..3], &[0x6B, 0xC1, 0x16]);
    // sample 2: the 24-bit minimum saturates at the minimum
    assert_eq!(&r.data[3..6], &[0x00, 0x00, 0x80]);
    // sample 3: the 24-bit maximum saturates at the maximum
    assert_eq!(&r.data[6..9], &[0xFF, 0xFF, 0x7F]);
    // sample 4: silence stays silence
    assert_eq!(&r.data[9..12], &[0x00, 0x00, 0x00]);
    slot.release(r).unwrap();
}

#[test]
fn test_fixed_point_precision() {
    let fixed_gain = q16(1.5);

    let sample: i16 = 1000;
    let result = apply_gain_fixed_i16(sample, fixed_gain);
    assert_eq!(result, 1500);

    let large_sample: i16 = 16000;
    let result_large = apply_gain_fixed_i16(large_sample, q16(2.0));
    assert_eq!(result_large, 32000);

    let max_sample: i16 = i16::MAX;
    let result_max = apply_gain_fixed_i16(max_sample, q16(2.0));
    assert_eq!(result_max, i16::MAX); // Should clamp

    let min_sample: i16 = i16::MIN;
    let result_min = apply_gain_fixed_i16(min_sample, q16(2.0));
    assert_eq!(result_min, i16::MIN); // Should clamp
}

#[test]
fn test_gain_other_sample_widths() {
    // 32-bit: exact scaling and saturation.
    assert_eq!(apply_gain_fixed_i32(1000, q16(1.5)), 1500);
    assert_eq!(apply_gain_fixed_i32(i32::MAX, q16(2.0)), i32::MAX);
    assert_eq!(apply_gain_fixed_i32(i32::MIN, q16(2.0)), i32::MIN);
    // 8-bit: centered at 128.
    assert_eq!(apply_gain_fixed_u8(128, q16(2.0)), 128);
    assert_eq!(apply_gain_fixed_u8(138, q16(2.0)), 148);
    assert_eq!(apply_gain_fixed_u8(255, q16(4.0)), 255);
    assert_eq!(apply_gain_fixed_u8(0, q16(4.0)), 0);
}

#[test]
fn test_gain_info_and_requirements() {
    let info = Info::new(48000, 2, 24, None);
    let mut gain = Gain::new_fixed_q16_16(q16(1.5));
    assert!(gain.get_in_info().is_none());
    assert!(gain.get_out_info().is_none());
    // Asking for the requirements before initialize is a lifecycle error.
    assert_eq!(gain.get_port_requirements().unwrap_err(), Error::InvalidState);

    let _ = gain.initialize(Some(info));
    assert!(gain.get_in_info().is_some());
    assert!(gain.get_in_info().unwrap() == info);
    assert!(gain.get_out_info().is_some());
    assert!(gain.get_out_info().unwrap() == info);

    let reqs = gain.get_port_requirements().unwrap();
    assert!(reqs.in_place.is_some());
    assert_eq!(reqs.in_place.unwrap(), 3);
}

#[test]
fn test_gain_rejects_unsupported_width() {
    let mut gain = Gain::new_fixed_q16_16(q16(1.0));
    let odd = Info::new(44100, 1, 12, None);
    assert_eq!(gain.initialize(Some(odd)).unwrap_err(), Error::Unsupported);
    let mut gain2 = Gain::new_fixed_q16_16(q16(1.0));
    assert_eq!(gain2.initialize(None).unwrap_err(), Error::InvalidParameter);
}

#[test]
fn test_gain_uses_scalar_path() {
    let gain = Gain::new_fixed_q16_16(q16(1.5));
    assert!(!gain.is_using_simd());
}

#[test]
fn test_gain_process_without_chunk_is_busy() {
    let info = Info::new(44100, 1, 16, None);
    let mut gain = Gain::new_fixed_q16_16(q16(2.0));
    gain.initialize(Some(info)).unwrap();
    let mut in_port = InPort::new_none();
    let mut out_port = OutPort::new_none();
    // The slot is empty: nothing to transform yet.
    let mut inplace_port = InPlacePort::Transformer(Slot::new(Some(vec![0u8; 4])));
    assert_eq!(
        gain.process(&mut in_port, &mut out_port, &mut inplace_port).unwrap_err(),
        Error::Busy
    );
    // A wrong port kind is a negotiation error, not a busy condition.
    let mut none_inplace = InPlacePort::new_none();
    assert_eq!(
        gain.process(&mut in_port, &mut out_port, &mut none_inplace).unwrap_err(),
        Error::Unsupported
    );
}

#[test]
fn test_gain_fine_never_stops_stream() {
    let info = Info::new(44100, 1, 16, None);
    let mut gain = Gain::new_fixed_q16_16(q16(1.0));
    gain.initialize(Some(info)).unwrap();
    let slot = fill_slot(&[1, 2, 3]);
    let mut in_port = InPort::new_none();
    let mut out_port = OutPort::new_none();
    let mut inplace_port = InPlacePort::Transformer(slot);
    let status = gain.process(&mut in_port, &mut out_port, &mut inplace_port).unwrap();
    assert_eq!(status, ProcessStatus::Fine);
}
