use krsi_shared_state::scratch::PerCpuScratchPool;

#[test]
fn in_range_acquisition_returns_buffer_of_configured_capacity() {
    let mut pool = PerCpuScratchPool::new(4, 16);
    assert_eq!(pool.num_cpus(), 4);
    for cpu in 0u32..4 {
        let buffer = pool.auxiliary_buffer(cpu).expect("in-range slot must exist");
        assert_eq!(buffer.capacity(), 16);
    }
}

#[test]
fn out_of_range_acquisition_returns_none() {
    let mut pool = PerCpuScratchPool::new(4, 16);
    assert!(pool.auxiliary_buffer(4).is_none());
    assert!(pool.auxiliary_buffer(100).is_none());
    assert!(pool.auxiliary_buffer(u32::MAX).is_none());
}

#[test]
fn empty_pool_has_no_slot_at_all() {
    let mut pool = PerCpuScratchPool::new(0, 16);
    assert_eq!(pool.num_cpus(), 0);
    assert!(pool.auxiliary_buffer(0).is_none());
}

#[test]
fn fresh_buffers_are_zero_filled() {
    let mut pool = PerCpuScratchPool::new(2, 8);
    let buffer = pool.auxiliary_buffer(0).expect("slot 0 must exist");
    for i in 0..8 {
        assert_eq!(buffer.read_byte(i), 0);
    }
}

#[test]
fn bytes_persist_between_acquisitions_on_one_cpu() {
    let mut pool = PerCpuScratchPool::new(2, 8);
    {
        let buffer = pool.auxiliary_buffer(1).expect("slot 1 must exist");
        buffer.write_byte(0, 0xab);
        buffer.write_byte(7, 0xcd);
    }
    {
        let buffer = pool.auxiliary_buffer(1).expect("slot 1 must exist");
        assert_eq!(buffer.read_byte(0), 0xab);
        assert_eq!(buffer.read_byte(7), 0xcd);
        assert_eq!(buffer.read_byte(3), 0);
    }
    // The other CPU's slot is untouched.
    let other = pool.auxiliary_buffer(0).expect("slot 0 must exist");
    for i in 0..8 {
        assert_eq!(other.read_byte(i), 0);
    }
}

#[test]
fn write_bytes_copies_a_window_and_leaves_the_rest() {
    let mut pool = PerCpuScratchPool::new(1, 8);
    let buffer = pool.auxiliary_buffer(0).expect("slot 0 must exist");
    buffer.write_byte(0, 0x11);
    buffer.write_byte(7, 0x77);
    buffer.write_bytes(2, &[1, 2, 3]);
    assert_eq!(buffer.read_byte(0), 0x11);
    assert_eq!(buffer.read_byte(1), 0);
    assert_eq!(buffer.read_byte(2), 1);
    assert_eq!(buffer.read_byte(3), 2);
    assert_eq!(buffer.read_byte(4), 3);
    assert_eq!(buffer.read_byte(5), 0);
    assert_eq!(buffer.read_byte(7), 0x77);
    assert_eq!(buffer.as_slice(), &[0x11, 0, 1, 2, 3, 0, 0, 0x77]);
}
