//! Per-CPU scratch buffer pool: an indexed arena of fixed-capacity byte
//! regions, one per CPU, used to assemble one in-flight auxiliary payload at a
//! time without heap allocation on the hot path. Exclusivity per slot is
//! supplied by the host execution environment (at most one in-flight probe
//! invocation per CPU), not by locks.

use vstd::prelude::*;

verus! {

/// A fixed-capacity mutable byte region. Its length is fixed at construction
/// and preserved by every operation.
pub struct AuxiliaryBuffer {
    data: Vec<u8>,
}

impl View for AuxiliaryBuffer {
    type V = Seq<u8>;

    closed spec fn view(&self) -> Seq<u8> {
        self.data@
    }
}

impl AuxiliaryBuffer {
    /// A zero-filled region of exactly `capacity` bytes.
    pub fn new(capacity: usize) -> (buffer: AuxiliaryBuffer)
        ensures
            buffer@.len() == capacity,
            forall|i: int| 0 <= i < capacity ==> buffer@[i] == 0u8,
    {
        let mut data: Vec<u8> = Vec::new();
        let mut i: usize = 0;
        while i < capacity
            invariant
                i <= capacity,
                data@.len() == i,
                forall|j: int| 0 <= j < i ==> data@[j] == 0u8,
            decreases capacity - i,
        {
            data.push(0u8);
            i = i + 1;
        }
        AuxiliaryBuffer { data }
    }

    /// The fixed capacity of the region.
    pub fn capacity(&self) -> (capacity: usize)
        ensures
            capacity == self@.len(),
    {
        self.data.len()
    }

    /// Writes one byte in place; every other byte is untouched.
    pub fn write_byte(&mut self, index: usize, value: u8)
        requires
            index < old(self)@.len(),
        ensures
            final(self)@ == old(self)@.update(index as int, value),
    {
        self.data.set(index, value);
    }

    /// Reads one byte back.
    pub fn read_byte(&self, index: usize) -> (value: u8)
        requires
            index < self@.len(),
        ensures
            value == self@[index as int],
    {
        self.data[index]
    }

    /// Copies `src` into the region starting at `offset`; bytes outside the
    /// written window are untouched.
    pub fn write_bytes(&mut self, offset: usize, src: &[u8])
        requires
            offset + src@.len() <= old(self)@.len(),
        ensures
            final(self)@.len() == old(self)@.len(),
            forall|i: int|
                offset <= i < offset + src@.len() ==> final(self)@[i] == src@[i - offset],
            forall|i: int|
                0 <= i < old(self)@.len() && !(offset <= i < offset + src@.len())
                    ==> final(self)@[i] == old(self)@[i],
    {
        let total = self.data.len();
        let mut i: usize = 0;
        while i < src.len()
            invariant
                i <= src@.len(),
                offset + src@.len() <= total,
                total == self@.len(),
                self@.len() == old(self)@.len(),
                forall|j: int| offset <= j < offset + i ==> self@[j] == src@[j - offset],
                forall|j: int|
                    0 <= j < old(self)@.len() && !(offset <= j < offset + i)
                        ==> self@[j] == old(self)@[j],
            decreases src@.len() - i,
        {
            self.data.set(offset + i, src[i]);
            i = i + 1;
        }
    }

    /// The whole region as a byte slice, for copying into a reservation.
    pub fn as_slice(&self) -> (bytes: &[u8])
        ensures
            bytes@ == self@,
    {
        self.data.as_slice()
    }
}

/// The pool: one buffer slot per CPU present at load time, addressed by CPU
/// index, every slot of the same configured capacity.
pub struct PerCpuScratchPool {
    buffers: Vec<AuxiliaryBuffer>,
    buffer_capacity: usize,
}

impl View for PerCpuScratchPool {
    type V = Seq<Seq<u8>>;

    closed spec fn view(&self) -> Seq<Seq<u8>> {
        self.buffers@.map_values(|b: AuxiliaryBuffer| b@)
    }
}

impl PerCpuScratchPool {
    /// The capacity every slot was configured with.
    pub closed spec fn buffer_capacity_spec(&self) -> usize {
        self.buffer_capacity
    }

    /// Every slot holds a region of exactly the configured capacity.
    pub open spec fn wf(&self) -> bool {
        forall|i: int| 0 <= i < self@.len() ==> (#[trigger] self@[i]).len() == self.buffer_capacity_spec()
    }

    /// A pool of `num_cpus` zero-filled slots of `buffer_capacity` bytes each.
    pub fn new(num_cpus: usize, buffer_capacity: usize) -> (pool: PerCpuScratchPool)
        ensures
            pool.wf(),
            pool@.len() == num_cpus,
            pool.buffer_capacity_spec() == buffer_capacity,
            forall|c: int, i: int|
                0 <= c < num_cpus && 0 <= i < buffer_capacity ==> pool@[c][i] == 0u8,
    {
        let mut buffers: Vec<AuxiliaryBuffer> = Vec::new();
        let mut c: usize = 0;
        while c < num_cpus
            invariant
                c <= num_cpus,
                buffers@.len() == c,
                forall|k: int| 0 <= k < c ==> (#[trigger] buffers@[k]@).len() == buffer_capacity,
                forall|k: int, i: int|
                    0 <= k < c && 0 <= i < buffer_capacity ==> buffers@[k]@[i] == 0u8,
            decreases num_cpus - c,
        {
            buffers.push(AuxiliaryBuffer::new(buffer_capacity));
            c = c + 1;
        }
        PerCpuScratchPool { buffers, buffer_capacity }
    }

    /// How many CPU slots were configured.
    pub fn num_cpus(&self) -> (n: usize)
        ensures
            n == self@.len(),
    {
        self.buffers.len()
    }

    /// Hands out the slot of the CPU whose index is `cpu_id`: a mutable view
    /// over the same underlying region on every acquisition for that index.
    /// The buffer handed out holds exactly the bytes the slot held — what a
    /// previous invocation on this CPU left there persists — and what the
    /// caller leaves in it is exactly what the slot holds afterwards; no other
    /// slot is disturbed. An index outside the configured range yields `None`,
    /// never a fault.
    pub fn auxiliary_buffer(&mut self, cpu_id: u32) -> (slot: Option<&mut AuxiliaryBuffer>)
        ensures
            slot is Some <==> cpu_id < old(self)@.len(),
            match slot {
                Some(buffer) => {
                    &&& buffer@ == old(self)@[cpu_id as int]
                    &&& old(self).wf() ==> buffer@.len() == old(self).buffer_capacity_spec()
                    &&& final(self)@.len() == old(self)@.len()
                    &&& final(self)@[cpu_id as int] == final(buffer)@
                    &&& forall|k: int|
                        0 <= k < old(self)@.len() && k != cpu_id
                            ==> final(self)@[k] == old(self)@[k]
                    &&& final(self).buffer_capacity_spec() == old(self).buffer_capacity_spec()
                },
                None => *final(self) == *old(self),
            },
    {
        let index = cpu_id as usize;
        if index < self.buffers.len() {
            proof {
                assert(self@[index as int] == self.buffers@[index as int]@);
            }
            Some(&mut self.buffers[index])
        } else {
            None
        }
    }
}

} // verus!
