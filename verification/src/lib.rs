//! Shared state for an in-kernel event-emission substrate, modeled as plain
//! values and verified: a selective-enablement gate over two bitmask
//! dimensions, a per-CPU scratch buffer pool, a bounded multi-producer
//! single-consumer event channel with reserve-then-commit publication, and a
//! write-once boot-time reference.

pub mod channel;
pub mod flags;
pub mod scratch;
pub mod timebase;

use crate::channel::EventChannel;
use crate::channel::is_power_of_two;
use crate::flags::FlagGate;
use crate::scratch::AuxiliaryBuffer;
use crate::scratch::PerCpuScratchPool;
use crate::timebase::TimeBase;
use vstd::prelude::*;

verus! {

/// The process-wide shared state: configured once at load time by the
/// single-writer initialization phase, then addressed independently by every
/// probe invocation. No component calls another.
pub struct SharedState {
    /// The selective-enablement gate over the two configured bitmasks.
    pub gate: FlagGate,
    /// The write-once boot reference instant.
    pub time: TimeBase,
    /// One fixed-capacity scratch slot per CPU present at load time.
    pub scratch: PerCpuScratchPool,
    /// The one shared transport from capture context to the consumer.
    pub events: EventChannel,
}

impl SharedState {
    /// Both invariant-carrying components are well formed.
    pub open spec fn wf(&self) -> bool {
        self.scratch.wf() && self.events.wf()
    }

    /// Builds the whole shared state as the loader would: the two masks
    /// configured, the boot time still at its zero default, one zero-filled
    /// scratch slot per CPU, and an empty ring of the given power-of-two byte
    /// capacity.
    pub fn new(
        feature_flags: u8,
        op_flags: u64,
        num_cpus: usize,
        scratch_capacity: usize,
        ring_byte_size: usize,
    ) -> (state: SharedState)
        requires
            is_power_of_two(ring_byte_size),
        ensures
            state.wf(),
            state.gate.feature_flags() == feature_flags,
            state.gate.op_flags() == op_flags,
            state.time.instant() == 0,
            state.scratch@.len() == num_cpus,
            state.scratch.buffer_capacity_spec() == scratch_capacity,
            forall|c: int, i: int|
                0 <= c < num_cpus && 0 <= i < scratch_capacity ==> state.scratch@[c][i] == 0u8,
            state.events.capacity_spec() == ring_byte_size,
            state.events.records() == Seq::<Seq<u8>>::empty(),
            state.events.reserved_bytes() == 0,
    {
        SharedState {
            gate: FlagGate::new(feature_flags, op_flags),
            time: TimeBase::new(),
            scratch: PerCpuScratchPool::new(num_cpus, scratch_capacity),
            events: EventChannel::with_byte_size(ring_byte_size),
        }
    }

    /// The enablement check a probe makes before any other work: true iff both
    /// configured masks cover the requested ones.
    pub fn is_support_enabled(&self, feature_flags: u8, op_flags: u64) -> (enabled: bool)
        ensures
            enabled == self.gate.enabled(feature_flags, op_flags),
    {
        self.gate.is_support_enabled(feature_flags, op_flags)
    }

    /// The boot reference instant, exactly as stored; zero before the
    /// one-time write.
    pub fn boot_time(&self) -> (instant: u64)
        ensures
            instant == self.time.instant(),
    {
        self.time.boot_time()
    }

    /// The current CPU's scratch slot, by its index: the same underlying
    /// region on every acquisition for one index — the slot's bytes persist
    /// between invocations, and no other slot, mask or channel state is
    /// touched — or `None` outside the configured range.
    pub fn auxiliary_buffer(&mut self, cpu_id: u32) -> (slot: Option<&mut AuxiliaryBuffer>)
        ensures
            slot is Some <==> cpu_id < old(self).scratch@.len(),
            match slot {
                Some(buffer) => {
                    &&& buffer@ == old(self).scratch@[cpu_id as int]
                    &&& old(self).scratch.wf()
                        ==> buffer@.len() == old(self).scratch.buffer_capacity_spec()
                    &&& final(self).scratch@.len() == old(self).scratch@.len()
                    &&& final(self).scratch@[cpu_id as int] == final(buffer)@
                    &&& forall|k: int|
                        0 <= k < old(self).scratch@.len() && k != cpu_id
                            ==> final(self).scratch@[k] == old(self).scratch@[k]
                    &&& final(self).scratch.buffer_capacity_spec()
                        == old(self).scratch.buffer_capacity_spec()
                    &&& final(self).gate == old(self).gate
                    &&& final(self).time == old(self).time
                    &&& final(self).events == old(self).events
                },
                None => *final(self) == *old(self),
            },
    {
        self.scratch.auxiliary_buffer(cpu_id)
    }

    /// The handle probes publish through: the one shared event channel.
    pub fn events_ringbuf(&mut self) -> (ringbuf: &mut EventChannel)
        ensures
            *ringbuf == old(self).events,
            final(self).events == *final(ringbuf),
            final(self).gate == old(self).gate,
            final(self).time == old(self).time,
            final(self).scratch == old(self).scratch,
    {
        &mut self.events
    }

    /// The one-time write of the boot reference by the configuration writer;
    /// nothing else changes.
    pub fn set_boot_time(&mut self, instant: u64)
        ensures
            final(self).time.instant() == instant,
            final(self).gate == old(self).gate,
            final(self).scratch == old(self).scratch,
            final(self).events == old(self).events,
    {
        self.time.set_boot_time(instant);
    }
}

} // verus!
