use krsi_shared_state::channel::EventChannel;

#[test]
fn committed_records_drain_in_commit_order() {
    let mut channel = EventChannel::with_byte_size(64);
    let payloads: [&[u8]; 3] = [&[1, 2, 3], &[4], &[5, 6, 7, 8, 9]];
    for payload in payloads {
        let mut window = channel.reserve(payload.len()).expect("must fit");
        window.write_bytes(0, payload);
        channel.commit(window);
    }
    assert_eq!(channel.pending_records(), 3);
    for payload in payloads {
        let record = channel.read().expect("committed record must be visible");
        assert_eq!(record.as_slice(), payload);
    }
    assert!(channel.read().is_none());
}

#[test]
fn oversized_reservation_fails_and_leaves_committed_data_intact() {
    let mut channel = EventChannel::with_byte_size(8);
    let mut window = channel.reserve(5).expect("must fit");
    window.write_bytes(0, &[9, 8, 7, 6, 5]);
    channel.commit(window);

    // Only 3 bytes are free now.
    assert!(channel.reserve(6).is_none());
    assert!(channel.reserve(4).is_none());

    // The committed record is intact and readable after the failures.
    let record = channel.read().expect("record must still be visible");
    assert_eq!(record.as_slice(), &[9, 8, 7, 6, 5]);

    // Draining freed the space again.
    assert!(channel.reserve(6).is_some());
}

#[test]
fn reservation_larger_than_capacity_fails_immediately() {
    let mut channel = EventChannel::with_byte_size(8);
    assert!(channel.reserve(9).is_none());
    assert_eq!(channel.pending_records(), 0);
    assert!(channel.read().is_none());
}

#[test]
fn outstanding_reservation_counts_against_capacity() {
    let mut channel = EventChannel::with_byte_size(8);
    let first = channel.reserve(5).expect("must fit");
    assert!(channel.reserve(4).is_none());
    let second = channel.reserve(3).expect("must fit in the remainder");
    channel.commit(first);
    channel.commit(second);
    assert_eq!(channel.pending_records(), 2);
}

#[test]
fn interleaved_producers_do_not_splice_records() {
    let mut channel = EventChannel::with_byte_size(32);

    // Two simulated producers hold windows at the same time and write turn
    // by turn before committing in the opposite order of reservation.
    let mut first = channel.reserve(4).expect("must fit");
    let mut second = channel.reserve(4).expect("must fit");
    for i in 0..4 {
        first.write_byte(i, 0xa0 + i as u8);
        second.write_byte(i, 0xb0 + i as u8);
    }
    channel.commit(second);
    channel.commit(first);

    let record = channel.read().expect("first committed record");
    assert_eq!(record.as_slice(), &[0xb0, 0xb1, 0xb2, 0xb3]);
    let record = channel.read().expect("second committed record");
    assert_eq!(record.as_slice(), &[0xa0, 0xa1, 0xa2, 0xa3]);
}

#[test]
fn discard_frees_claimed_window_without_publishing() {
    let mut channel = EventChannel::with_byte_size(8);
    let window = channel.reserve(8).expect("whole capacity is free");
    assert!(channel.reserve(1).is_none());
    channel.discard(window);
    assert_eq!(channel.pending_records(), 0);
    assert!(channel.read().is_none());
    assert!(channel.reserve(8).is_some());
}

#[test]
fn fresh_windows_are_zero_filled() {
    let mut channel = EventChannel::with_byte_size(16);
    let window = channel.reserve(4).expect("must fit");
    assert_eq!(window.len(), 4);
    channel.commit(window);
    let record = channel.read().expect("record must be visible");
    assert_eq!(record.as_slice(), &[0, 0, 0, 0]);
}

#[test]
fn capacity_is_fixed_at_construction() {
    let channel = EventChannel::with_byte_size(262144);
    assert_eq!(channel.capacity(), 262144);
}
