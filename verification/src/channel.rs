//! Event channel: a bounded multi-producer, single-consumer transport.
//! Producers reserve a window, write a serialized record into it, and commit;
//! committed records become visible to the one consumer in commit order. A
//! reservation that does not fit in the remaining free capacity fails at once:
//! no blocking, no retry, no secondary storage. A window never becomes visible
//! before its commit, so the consumer never observes a torn record.

use vstd::prelude::*;

verus! {

/// The bytes occupied by a sequence of records.
pub open spec fn total_bytes(records: Seq<Seq<u8>>) -> int
    decreases records.len(),
{
    if records.len() == 0 {
        0
    } else {
        total_bytes(records.drop_last()) + records.last().len()
    }
}

/// A record sequence never occupies a negative number of bytes.
pub proof fn lemma_total_bytes_nonneg(records: Seq<Seq<u8>>)
    ensures
        total_bytes(records) >= 0,
    decreases records.len(),
{
    if records.len() > 0 {
        lemma_total_bytes_nonneg(records.drop_last());
    }
}

/// Occupied bytes split around the oldest record: draining it frees exactly
/// its own length.
pub proof fn lemma_total_bytes_drop_first(records: Seq<Seq<u8>>)
    requires
        records.len() > 0,
    ensures
        total_bytes(records) == records[0].len() + total_bytes(records.drop_first()),
    decreases records.len(),
{
    if records.len() == 1 {
        assert(records.drop_first() =~= Seq::<Seq<u8>>::empty());
        assert(records.drop_last() =~= Seq::<Seq<u8>>::empty());
        assert(total_bytes(records.drop_first()) == 0);
        assert(total_bytes(records) == total_bytes(records.drop_last()) + records.last().len());
        assert(records.last() == records[0]);
    } else {
        lemma_total_bytes_drop_first(records.drop_last());
        assert(records.drop_last().drop_first() =~= records.drop_first().drop_last());
        assert(records.drop_first().last() == records.last());
        assert(records.drop_last()[0] == records[0]);
        assert(records.drop_first().len() > 0);
        assert(total_bytes(records) == total_bytes(records.drop_last()) + records.last().len());
        assert(total_bytes(records.drop_last())
            == records[0].len() + total_bytes(records.drop_first().drop_last()));
        assert(total_bytes(records.drop_first())
            == total_bytes(records.drop_first().drop_last()) + records.drop_first().last().len());
    }
}

/// Publication in commit order: after a commit, every previously committed
/// record is intact, in its place and order, and the newly committed record
/// stands last — no record is spliced, reordered or lost.
pub proof fn lemma_commit_order(prior: Seq<Seq<u8>>, record: Seq<u8>)
    ensures
        prior.push(record).len() == prior.len() + 1,
        forall|i: int| 0 <= i < prior.len() ==> prior.push(record)[i] == prior[i],
        prior.push(record)[prior.len() as int] == record,
{
}

/// The visible records after a batch of commits, one after another in the
/// order of `batch`: each commit appends one record, as `commit` ensures.
pub open spec fn commit_all(visible: Seq<Seq<u8>>, batch: Seq<Seq<u8>>) -> Seq<Seq<u8>>
    decreases batch.len(),
{
    if batch.len() == 0 {
        visible
    } else {
        commit_all(visible.push(batch[0]), batch.drop_first())
    }
}

/// Batch publication in commit order: committing the records of `batch`, one
/// after another, after the already visible `visible` makes exactly
/// `visible + batch` visible — all of them, in commit order, none lost, none
/// duplicated, none reordered, none altered. The consumer, draining oldest
/// first, then reads them back in that same order.
pub proof fn lemma_batch_commit_order(visible: Seq<Seq<u8>>, batch: Seq<Seq<u8>>)
    ensures
        commit_all(visible, batch) == visible + batch,
    decreases batch.len(),
{
    if batch.len() == 0 {
        assert(commit_all(visible, batch) =~= visible + batch);
    } else {
        lemma_batch_commit_order(visible.push(batch[0]), batch.drop_first());
        assert(visible.push(batch[0]) + batch.drop_first() =~= visible + batch);
    }
}

/// A capacity is valid when it is a positive power of two.
pub open spec fn is_power_of_two(n: usize) -> bool {
    n > 0 && n & ((n - 1) as usize) == 0
}

/// A claimed window of the channel: exactly the reserved number of bytes,
/// zero-filled at reservation, exclusively owned by its producer until it is
/// committed or discarded. Writes to one reservation cannot touch any other.
pub struct Reservation {
    data: Vec<u8>,
}

impl View for Reservation {
    type V = Seq<u8>;

    closed spec fn view(&self) -> Seq<u8> {
        self.data@
    }
}

impl Reservation {
    /// The size the window was reserved with.
    pub fn len(&self) -> (n: usize)
        ensures
            n == self@.len(),
    {
        self.data.len()
    }

    /// Writes one byte of the record in place.
    pub fn write_byte(&mut self, index: usize, value: u8)
        requires
            index < old(self)@.len(),
        ensures
            final(self)@ == old(self)@.update(index as int, value),
    {
        self.data.set(index, value);
    }

    /// Copies `src` into the window starting at `offset`; bytes outside the
    /// written range are untouched.
    pub fn write_bytes(&mut self, offset: usize, src: &[u8])
        requires
            offset + src@.len() <= old(self)@.len(),
        ensures
            final(self)@.len() == old(self)@.len(),
            forall|i: int|
                offset <= i < offset + src@.len() ==> final(self)@[i] == src@[i - offset],
            forall|i: int|
                0 <= i < old(self)@.len() && !(offset <= i < offset + src@.len())
                    ==> final(self)@[i] == old(self)@[i],
    {
        let total = self.data.len();
        let mut i: usize = 0;
        while i < src.len()
            invariant
                i <= src@.len(),
                offset + src@.len() <= total,
                total == self@.len(),
                self@.len() == old(self)@.len(),
                forall|j: int| offset <= j < offset + i ==> self@[j] == src@[j - offset],
                forall|j: int|
                    0 <= j < old(self)@.len() && !(offset <= j < offset + i)
                        ==> self@[j] == old(self)@[j],
            decreases src@.len() - i,
        {
            self.data.set(offset + i, src[i]);
            i = i + 1;
        }
    }

    fn into_bytes(self) -> (bytes: Vec<u8>)
        ensures
            bytes@ == self@,
    {
        self.data
    }
}

/// The channel itself: a byte capacity fixed at load time, the committed,
/// not-yet-drained records in commit order, and the bytes currently claimed by
/// outstanding reservations.
pub struct EventChannel {
    capacity: usize,
    reserved: usize,
    used: usize,
    committed: Vec<Vec<u8>>,
}

impl EventChannel {
    /// The byte capacity fixed at load time.
    pub closed spec fn capacity_spec(&self) -> usize {
        self.capacity
    }

    /// The bytes claimed by reservations not yet committed or discarded.
    pub closed spec fn reserved_bytes(&self) -> int {
        self.reserved as int
    }

    /// The committed, not-yet-drained records, oldest first.
    pub closed spec fn records(&self) -> Seq<Seq<u8>> {
        self.committed@.map_values(|r: Vec<u8>| r@)
    }

    /// The claimed bytes are a count and never negative, whatever sequence of
    /// operations produced the channel.
    pub proof fn lemma_reserved_bytes_nonneg(&self)
        ensures
            self.reserved_bytes() >= 0,
    {
    }

    /// Committed and reserved bytes never exceed the capacity, and the byte
    /// accounting matches the records held.
    pub closed spec fn wf(&self) -> bool {
        &&& total_bytes(self.records()) == self.used as int
        &&& self.used + self.reserved <= self.capacity
    }

    /// The bytes still free for new reservations.
    pub open spec fn free_bytes(&self) -> int {
        self.capacity_spec() - total_bytes(self.records()) - self.reserved_bytes()
    }

    /// An empty channel of the given power-of-two byte capacity.
    pub fn with_byte_size(capacity: usize) -> (channel: EventChannel)
        requires
            is_power_of_two(capacity),
        ensures
            channel.wf(),
            channel.capacity_spec() == capacity,
            channel.records() =~= Seq::<Seq<u8>>::empty(),
            channel.reserved_bytes() == 0,
    {
        let channel = EventChannel { capacity, reserved: 0, used: 0, committed: Vec::new() };
        proof {
            assert(channel.records() =~= Seq::<Seq<u8>>::empty());
        }
        channel
    }

    /// The fixed capacity.
    pub fn capacity(&self) -> (capacity: usize)
        ensures
            capacity == self.capacity_spec(),
    {
        self.capacity
    }

    /// Claims a contiguous window of `size` bytes. Succeeds exactly when the
    /// requested size fits in the free capacity; on failure the channel is
    /// unchanged and every previously committed record stays intact. The
    /// fresh window is zero-filled and not visible to the consumer until
    /// committed.
    pub fn reserve(&mut self, size: usize) -> (window: Option<Reservation>)
        requires
            old(self).wf(),
        ensures
            final(self).wf(),
            final(self).capacity_spec() == old(self).capacity_spec(),
            window is Some <==> size <= old(self).free_bytes(),
            match window {
                Some(reservation) => {
                    &&& reservation@.len() == size
                    &&& forall|i: int| 0 <= i < size ==> reservation@[i] == 0u8
                    &&& final(self).records() == old(self).records()
                    &&& final(self).reserved_bytes() == old(self).reserved_bytes() + size
                },
                None => *final(self) == *old(self),
            },
    {
        proof {
            lemma_total_bytes_nonneg(self.records());
        }
        let free = self.capacity - self.used - self.reserved;
        if size <= free {
            let mut data: Vec<u8> = Vec::new();
            let mut i: usize = 0;
            while i < size
                invariant
                    i <= size,
                    data@.len() == i,
                    forall|j: int| 0 <= j < i ==> data@[j] == 0u8,
                decreases size - i,
            {
                data.push(0u8);
                i = i + 1;
            }
            self.reserved = self.reserved + size;
            Some(Reservation { data })
        } else {
            None
        }
    }

    /// Publishes a finished record: appends exactly the reservation's bytes
    /// after every previously committed record, releasing the claimed window.
    /// The consumer observes records in commit order, each one whole.
    pub fn commit(&mut self, reservation: Reservation)
        requires
            old(self).wf(),
            reservation@.len() <= old(self).reserved_bytes(),
        ensures
            final(self).wf(),
            final(self).capacity_spec() == old(self).capacity_spec(),
            final(self).records() == old(self).records().push(reservation@),
            final(self).reserved_bytes() == old(self).reserved_bytes() - reservation@.len(),
    {
        let bytes = reservation.into_bytes();
        let ghost prior = self.records();
        let len = bytes.len();
        self.used = self.used + len;
        self.reserved = self.reserved - len;
        self.committed.push(bytes);
        proof {
            assert(self.records() =~= prior.push(bytes@));
            assert(self.records().drop_last() =~= prior);
        }
    }

    /// Abandons a claimed window without publishing anything: the claimed
    /// bytes return to the free capacity and no record becomes visible.
    pub fn discard(&mut self, reservation: Reservation)
        requires
            old(self).wf(),
            reservation@.len() <= old(self).reserved_bytes(),
        ensures
            final(self).wf(),
            final(self).capacity_spec() == old(self).capacity_spec(),
            final(self).records() == old(self).records(),
            final(self).reserved_bytes() == old(self).reserved_bytes() - reservation@.len(),
    {
        let bytes = reservation.into_bytes();
        self.reserved = self.reserved - bytes.len();
    }

    /// The consumer's drain: removes and returns the oldest committed record,
    /// exactly as its producer wrote it, freeing its bytes; `None` on an
    /// empty channel.
    pub fn read(&mut self) -> (record: Option<Vec<u8>>)
        requires
            old(self).wf(),
        ensures
            final(self).wf(),
            final(self).capacity_spec() == old(self).capacity_spec(),
            final(self).reserved_bytes() == old(self).reserved_bytes(),
            record is Some <==> old(self).records().len() > 0,
            match record {
                Some(bytes) => {
                    &&& bytes@ == old(self).records()[0]
                    &&& final(self).records() == old(self).records().drop_first()
                },
                None => *final(self) == *old(self),
            },
    {
        if self.committed.len() > 0 {
            proof {
                lemma_total_bytes_drop_first(self.records());
                lemma_total_bytes_nonneg(self.records().drop_first());
            }
            let ghost prior = self.records();
            let bytes = self.committed.remove(0);
            self.used = self.used - bytes.len();
            proof {
                assert(self.records() =~= prior.drop_first());
            }
            Some(bytes)
        } else {
            None
        }
    }

    /// How many committed records await the consumer.
    pub fn pending_records(&self) -> (n: usize)
        ensures
            n == self.records().len(),
    {
        self.committed.len()
    }
}

} // verus!
