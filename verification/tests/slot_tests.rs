use embedded_audio::payload::{Metadata, Payload, Position};
use embedded_audio::slot::{Slot, State};
use embedded_audio::Error;

#[test]
fn test_slot_acq_rel_and_metadata() {
    // Verify the basic acquire-release cycle for both writing and reading,
    // and ensure that metadata is correctly stored and retrieved.
    let buffer = vec![0u8; 1024];
    let mut slot = Slot::new(Some(buffer));

    // 1. Producer acquires the slot for writing
    let mut write_payload = slot.acquire_write().expect("slot should grant a fresh write");
    assert_eq!(write_payload.len(), 1024, "Write payload should have the full buffer size");

    let test_data = [1u8, 2, 3, 4];
    write_payload.write_bytes(0, &test_data);
    write_payload.set_valid_length(4);
    write_payload.set_position(Position::First);
    slot.release(write_payload).expect("releasing the write payload should succeed");

    // 2. Verify metadata is stored in the slot after writing
    let stored_metadata = slot.get_current_metadata().expect("Metadata should be available after write");
    assert_eq!(stored_metadata.valid_length, 4, "Stored valid_length is incorrect");
    assert_eq!(stored_metadata.position, Position::First, "Stored position is incorrect");

    // 3. Consumer acquires the slot for reading
    let read_payload = slot.acquire_read().expect("slot should grant a read when full");
    assert_eq!(read_payload.len(), 1024, "Read payload should have the full buffer size");
    assert_eq!(read_payload.metadata.valid_length, 4, "Read payload metadata valid_length is incorrect");
    assert_eq!(read_payload.metadata.position, Position::First, "Read payload metadata position is incorrect");
    assert_eq!(&read_payload.data[..4], &[1, 2, 3, 4], "Data read does not match data written");
    slot.release(read_payload).expect("releasing the read payload should succeed");

    // 4. Verify we can acquire for writing again, showing the slot has been reset.
    let again = slot.acquire_write();
    assert!(again.is_ok());
}

#[test]
fn test_concurrent_producer_consumer() {
    // The hand-off scenario between a producer and a consumer: whatever
    // the interleaving, the reader can only be granted the chunk after the
    // writer's release, and then observes exactly the written bytes.
    let buffer = vec![0u8; 8];
    let mut slot = Slot::new(Some(buffer));

    // The consumer polls first: nothing has been written yet, so the slot
    // refuses the read instead of handing out stale bytes.
    assert_eq!(slot.acquire_read().unwrap_err(), Error::Busy);

    // The producer runs its task.
    let mut payload = slot.acquire_write().expect("producer acquires the empty slot");
    payload.write_bytes(0, &[10, 20, 30]);
    payload.set_valid_length(3);
    payload.set_position(Position::Single);
    slot.release(payload).expect("Producer task failed");

    // Now the consumer's retry is granted and sees exactly the chunk.
    let read = slot.acquire_read().expect("Consumer task failed");
    assert_eq!(&read.data[..read.metadata.valid_length], &[10, 20, 30]);
    assert_eq!(read.metadata.position, Position::Single);
    slot.release(read).unwrap();
}

#[test]
fn test_second_acquire_write_is_refused() {
    // Strict alternation: a second write grant before an intervening read
    // must be refused; the slot never double-grants Writing.
    let mut slot = Slot::new(Some(vec![0u8; 16]));
    let payload = slot.acquire_write().unwrap();
    assert_eq!(slot.acquire_write().unwrap_err(), Error::Busy);
    assert_eq!(slot.get_state(), State::Writing);
    slot.release(payload).unwrap();

    // After the release the chunk is full: still no second write grant
    // until a read cycle has emptied the slot.
    assert_eq!(slot.acquire_write().unwrap_err(), Error::Busy);
    let read = slot.acquire_read().unwrap();
    assert_eq!(slot.acquire_write().unwrap_err(), Error::Busy);
    slot.release(read).unwrap();
    assert!(slot.acquire_write().is_ok());
}

#[test]
fn test_any_sequence_of_cycles_preserves_bytes() {
    // For any sequence of write/release then read/verify/release pairs,
    // the bytes observed on read equal exactly the bytes written in the
    // immediately preceding write: no loss, no duplication.
    let mut slot = Slot::new(Some(vec![0u8; 4]));
    let mut round: u8 = 0;
    while round < 5 {
        let chunk = [round, round + 1, round + 2, round + 3];
        let mut w = slot.acquire_write().unwrap();
        assert_eq!(w.metadata.valid_length, 0, "write grants start with cleared metadata");
        w.write_bytes(0, &chunk);
        w.set_valid_length(4);
        w.set_position(Position::Middle);
        slot.release(w).unwrap();

        let r = slot.acquire_read().unwrap();
        assert_eq!(&r.data[..], &chunk, "round {} bytes must round-trip", round);
        assert_eq!(r.metadata.valid_length, 4);
        slot.release(r).unwrap();
        round += 1;
    }
}

#[test]
fn test_rebind_non_idle_slot_fails() {
    // Rebinding the buffer while a chunk is in flight must fail explicitly
    // and never corrupt the chunk.
    let mut slot = Slot::new(Some(vec![0u8; 4]));
    let mut payload = slot.acquire_write().unwrap();
    payload.write_bytes(0, &[7, 7, 7, 7]);
    payload.set_valid_length(4);
    payload.set_position(Position::Single);

    // While the producer holds the buffer: no rebinding.
    assert_eq!(slot.set_buffer(Some(vec![0u8; 99])).unwrap_err(), Error::InvalidState);
    slot.release(payload).unwrap();

    // While a full chunk waits for its consumer: no rebinding either.
    assert_eq!(slot.set_buffer(None).unwrap_err(), Error::InvalidState);
    let read = slot.acquire_read().unwrap();
    assert_eq!(&read.data[..], &[7, 7, 7, 7], "in-flight chunk was corrupted");
    slot.release(read).unwrap();

    // Idle again: rebinding succeeds and unbinding blocks acquisition.
    slot.set_buffer(Some(vec![0u8; 2])).unwrap();
    slot.set_buffer(None).unwrap();
    assert_eq!(slot.get_state(), State::NoneBuffer);
    assert_eq!(slot.acquire_write().unwrap_err(), Error::InvalidState);
    assert_eq!(slot.acquire_read().unwrap_err(), Error::InvalidState);
}

#[test]
fn test_acquire_on_unbound_slot_fails() {
    let mut slot = Slot::new(None);
    assert_eq!(slot.get_state(), State::NoneBuffer);
    assert_eq!(slot.acquire_write().unwrap_err(), Error::InvalidState);
    assert_eq!(slot.acquire_read().unwrap_err(), Error::InvalidState);
    // Rebinding demands an idle (`Empty`) slot, which an unbound slot
    // never is: acquisitions against it are precondition violations.
    assert_eq!(slot.set_buffer(Some(vec![0u8; 1])).unwrap_err(), Error::InvalidState);
}

#[test]
fn test_set_valid_length_clamps() {
    // valid_length is always at most the buffer capacity, even if a stage
    // requests a larger logical length.
    let mut payload = Payload::new(vec![0u8; 8], Metadata::new(Position::Middle, 0), true);
    payload.set_valid_length(5000);
    assert_eq!(payload.metadata.valid_length, 8);
    payload.set_valid_length(3);
    assert_eq!(payload.metadata.valid_length, 3);

    // Even a payload whose metadata was forged past the capacity is
    // clamped when the slot stores it.
    let mut slot = Slot::new(Some(vec![0u8; 8]));
    let mut p = slot.acquire_write().unwrap();
    p.metadata = Metadata::new(Position::Last, 9999);
    slot.release(p).unwrap();
    assert_eq!(slot.get_current_metadata().unwrap().valid_length, 8);
}

#[test]
fn test_write_cycle_keeps_capacity() {
    let mut slot = Slot::new(Some(vec![0u8; 32]));
    assert_eq!(slot.buffer_capacity(), Some(32));
    let p = slot.acquire_write().unwrap();
    assert_eq!(slot.buffer_capacity(), None, "the holder owns the buffer now");
    slot.release(p).unwrap();
    assert_eq!(slot.buffer_capacity(), Some(32));
}

#[test]
fn test_release_role_mismatch_is_refused() {
    // A payload whose role does not match the slot's state is refused.
    let mut slot = Slot::new(Some(vec![0u8; 4]));
    let p = slot.acquire_write().unwrap();
    // Forge a read payload while the slot is in Writing.
    let fake_read = Payload::new(vec![0u8; 4], Metadata::new(Position::Middle, 0), false);
    assert_eq!(slot.release(fake_read).unwrap_err(), Error::InvalidState);
    // The real write payload is still accepted.
    slot.release(p).unwrap();
}
