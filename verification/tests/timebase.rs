use krsi_shared_state::timebase::TimeBase;

#[test]
fn read_before_the_write_yields_the_zero_default() {
    let time = TimeBase::new();
    assert_eq!(time.boot_time(), 0);
    assert!(!time.is_initialized());
}

#[test]
fn every_read_after_the_write_observes_it_exactly() {
    let mut time = TimeBase::new();
    time.set_boot_time(1_700_000_000_123_456_789);
    // Repeated reads, as from different cores, all observe the written value.
    for _ in 0..8 {
        assert_eq!(time.boot_time(), 1_700_000_000_123_456_789);
    }
    assert!(time.is_initialized());
}
