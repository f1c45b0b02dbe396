//! Bounded egress ring buffers and the batcher that drains them.
//!
//! Each ring is a bounded FIFO. Producers append and never block the
//! ingest path: a full ring discards the new record. A single batcher
//! drains up to a size-bounded slice each tick and ships it to the
//! spatial service; when delivery fails the drained batch is lost, the
//! client handle is invalidated, and the loop continues on the next
//! tick.

use vstd::prelude::*;

verus! {

/// A bounded FIFO of records awaiting egress.
#[derive(Debug, Clone)]
pub struct RingBuffer<T> {
    items: Vec<T>,
    capacity: usize,
}

impl<T> View for RingBuffer<T> {
    type V = Seq<T>;

    closed spec fn view(&self) -> Seq<T> {
        self.items@
    }
}

impl<T> RingBuffer<T> {
    /// The fixed number of records the ring can hold.
    pub closed spec fn spec_capacity(&self) -> usize {
        self.capacity
    }

    /// The ring never holds more records than its capacity: memory
    /// stays bounded however many producers feed it and however long
    /// the batcher stalls.
    pub open spec fn wf(&self) -> bool {
        self@.len() <= self.spec_capacity()
    }

    /// An empty ring of the given capacity.
    pub fn new(capacity: usize) -> (r: RingBuffer<T>)
        ensures
            r.wf(),
            r@ == Seq::<T>::empty(),
            r.spec_capacity() == capacity,
    {
        RingBuffer { items: Vec::new(), capacity }
    }

    /// The fixed number of records the ring can hold.
    pub fn capacity(&self) -> (r: usize)
        ensures
            r == self.spec_capacity(),
    {
        self.capacity
    }

    /// How many records are queued.
    pub fn len(&self) -> (r: usize)
        ensures
            r == self@.len(),
    {
        self.items.len()
    }

    /// Append a record, unless the ring is full: a full ring discards
    /// the new record, so a producer never waits and never grows the
    /// ring past its capacity.
    pub fn try_push(&mut self, item: T) -> (accepted: bool)
        requires
            old(self).wf(),
        ensures
            final(self).wf(),
            final(self).spec_capacity() == old(self).spec_capacity(),
            accepted ==> final(self)@ == old(self)@.push(item),
            !accepted ==> final(self)@ == old(self)@ && old(self)@.len() == old(
                self,
            ).spec_capacity(),
    {
        if self.items.len() < self.capacity {
            self.items.push(item);
            true
        } else {
            false
        }
    }

    /// Drain up to `max_items` records from the front, preserving
    /// FIFO order: the result is exactly the drained prefix and the
    /// ring keeps exactly the rest.
    pub fn drain(&mut self, max_items: usize) -> (batch: Vec<T>)
        requires
            old(self).wf(),
        ensures
            final(self).wf(),
            final(self).spec_capacity() == old(self).spec_capacity(),
            batch@.len() == vstd::math::min(max_items as int, old(self)@.len() as int),
            batch@ == old(self)@.take(batch@.len() as int),
            final(self)@ == old(self)@.skip(batch@.len() as int),
    {
        let n: usize = if max_items < self.items.len() {
            max_items
        } else {
            self.items.len()
        };
        let mut batch: Vec<T> = Vec::new();
        let mut i: usize = 0;
        while i < n
            invariant
                i <= n,
                n == vstd::math::min(max_items as int, old(self)@.len() as int),
                batch@ =~= old(self)@.take(i as int),
                self.items@ =~= old(self)@.skip(i as int),
                self.capacity == old(self).spec_capacity(),
            decreases n - i,
        {
            let item = self.items.remove(0);
            batch.push(item);
            i += 1;
            proof {
                assert(batch@ =~= old(self)@.take(i as int));
                assert(self.items@ =~= old(self)@.skip(i as int));
            }
        }
        batch
    }
}

/// How many records fit a byte budget: the configured byte size
/// divided by the size of one record. Used both for ring capacities
/// and for the batcher's per-message record bound.
pub fn capacity_for(buffer_bytes: usize, record_size: usize) -> (r: usize)
    requires
        record_size > 0,
    ensures
        r == buffer_bytes / record_size,
{
    buffer_bytes / record_size
}

/// What the batcher does with the spatial-service client handle after
/// a delivery attempt.
#[derive(Debug, Copy, Clone, PartialEq, Eq, Structural)]
pub enum ClientAction {
    /// Delivery succeeded: keep the handle.
    Keep,
    /// Delivery failed: invalidate the handle so the next iteration
    /// reconnects instead of hammering a wedged peer.
    Invalidate,
}

/// Decide the fate of the client handle after a delivery attempt:
/// the handle is invalidated exactly when delivery failed. The
/// drained batch is never re-enqueued either way.
pub fn after_delivery(delivered: bool) -> (r: ClientAction)
    ensures
        r is Keep <==> delivered,
        r is Invalidate <==> !delivered,
{
    if delivered {
        ClientAction::Keep
    } else {
        ClientAction::Invalidate
    }
}

/// How long the batcher sleeps before its next iteration: the rest of
/// the cadence, or nothing when the previous iteration overran it
/// (the loop then logs a lag warning and proceeds immediately).
pub fn batch_sleep_ms(elapsed_ms: u64, cadence_ms: u64) -> (r: u64)
    ensures
        elapsed_ms >= cadence_ms ==> r == 0,
        elapsed_ms < cadence_ms ==> r == cadence_ms - elapsed_ms,
{
    if elapsed_ms >= cadence_ms {
        0
    } else {
        cadence_ms - elapsed_ms
    }
}

/// Law: one batcher iteration partitions the queued records. The
/// drained batch is exactly the oldest prefix, the ring keeps exactly
/// the rest, and together they are the records that were queued:
/// nothing is duplicated, and a failed delivery cannot replay the
/// batch because the ring no longer holds it.
pub proof fn lemma_iteration_partitions_ring<T>(before: Seq<T>, batch: Seq<T>, after: Seq<T>, n: int)
    requires
        0 <= n <= before.len(),
        batch == before.take(n),
        after == before.skip(n),
    ensures
        batch + after == before,
        batch.len() + after.len() == before.len(),
        forall|i: int| 0 <= i < after.len() ==> after[i] == before[i + n],
{
    assert(batch + after =~= before);
}

} // verus!
