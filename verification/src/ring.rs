//! The ring that carries captured samples from a device callback to the
//! signal-processing thread.
//!
//! A sample travels as the bit pattern of its `f32` value, so that the ring
//! and everything read from it are plain integers here. The producing half
//! lives on the device's own thread: whatever the consuming half observes, more
//! samples may have arrived a moment later. Contracts therefore speak of the
//! samples that *had* arrived when a call looked.

use ringbuf::traits::{Consumer, Producer, Split};
use vstd::prelude::*;

verus! {

/// The reading half of a sample ring.
#[verifier::external_body]
pub struct SampleConsumer {
    inner: ringbuf::HeapCons<u32>,
}

/// The writing half of a sample ring.
#[verifier::external_body]
pub struct SampleProducer {
    inner: ringbuf::HeapProd<u32>,
}

/// The samples in the ring as of the consumer's latest operation, oldest first.
/// Samples that the producer has added since then are not part of it.
pub uninterp spec fn waiting(consumer: SampleConsumer) -> Seq<u32>;

/// The free places in the ring as of the producer's latest operation. Places
/// that the consumer has freed since then are not counted.
pub uninterp spec fn vacant(producer: SampleProducer) -> nat;

/// The samples that the producer has put into the ring so far, in order.
pub uninterp spec fn sent(producer: SampleProducer) -> Seq<u32>;

/// The samples that the consumer has taken out of the ring so far, in order.
pub uninterp spec fn taken(consumer: SampleConsumer) -> Seq<u32>;

/// What one removal does: of the samples `before`, followed by those that
/// `arrived` until the ring was looked at, the oldest is taken; with none there,
/// nothing is.
pub open spec fn removes_oldest(
    before: Seq<u32>,
    arrived: Seq<u32>,
    item: Option<u32>,
    after: Seq<u32>,
) -> bool {
    let seen = before + arrived;
    if seen.len() == 0 {
        item is None && after == seen
    } else {
        item == Some(seen[0]) && after == seen.drop_first()
    }
}

/// What one insertion does: with a free place, counting those that were `freed`
/// until the ring was looked at, the sample is stored; with none it is refused.
pub open spec fn takes_place(before: nat, freed: nat, stored: bool, after: nat) -> bool {
    if before + freed == 0 {
        !stored && after == 0
    } else {
        stored && after == before + freed - 1
    }
}

/// How many of `seen` samples a drain moves into a batch that already holds
/// `start`: all of them, or, under a limit, as many as first bring the batch to
/// that size. The limit is looked at after a sample was added, never before.
pub open spec fn drain_count(start: nat, limit: Option<usize>, seen: nat) -> nat {
    match limit {
        None => seen,
        Some(size) => {
            if seen == 0 {
                0
            } else if start + 1 >= size {
                1
            } else if start + seen <= size {
                seen
            } else {
                (size - start) as nat
            }
        },
    }
}

/// The largest ring that can be allocated: its samples take at most
/// `isize::MAX` bytes.
pub open spec fn ring_capacity_ok(capacity: usize) -> bool {
    0 < capacity <= isize::MAX / 4
}

/// `ringbuf::SharedRb::new` followed by `Split::split`: a ring of exactly
/// `capacity` places, all of them free, as its two halves. `new` panics on a
/// capacity of zero and where the allocation would exceed `isize::MAX` bytes.
#[verifier::external_body]
fn split_ring(capacity: usize) -> (halves: (SampleProducer, SampleConsumer))
    requires
        ring_capacity_ok(capacity),
    ensures
        vacant(halves.0) == capacity,
        sent(halves.0) == Seq::<u32>::empty(),
        waiting(halves.1) == Seq::<u32>::empty(),
        taken(halves.1) == Seq::<u32>::empty(),
{
    let (producer, consumer) = ringbuf::HeapRb::<u32>::new(capacity).split();
    (SampleProducer { inner: producer }, SampleConsumer { inner: consumer })
}

/// Creates a ring with room for `capacity` samples, or nothing where no such
/// ring exists.
pub fn sample_ring(capacity: usize) -> (halves: Option<(SampleProducer, SampleConsumer)>)
    ensures
        halves is Some <==> ring_capacity_ok(capacity),
        halves is Some <==> capacity > 0 && 4 * capacity <= isize::MAX,
        halves matches Some((producer, consumer)) ==> {
            &&& vacant(producer) == capacity
            &&& sent(producer) == Seq::<u32>::empty()
            &&& waiting(consumer) == Seq::<u32>::empty()
            &&& taken(consumer) == Seq::<u32>::empty()
        },
{
    if capacity == 0 || capacity > isize::MAX as usize / 4 {
        None
    } else {
        Some(split_ring(capacity))
    }
}

impl SampleProducer {
    /// `ringbuf::traits::Producer::try_push`: appends the sample where the ring
    /// has a free place and otherwise hands it back, the ring unchanged. The
    /// consumer may have freed places since the producer's last call. When the
    /// consumer gets to see the sample is left unsaid: that rests on the other
    /// half's thread.
    #[verifier::external_body]
    fn try_push(&mut self, sample: u32) -> (outcome: Result<(), u32>)
        ensures
            exists|freed: nat| #[trigger]
                takes_place(vacant(*old(self)), freed, outcome is Ok, vacant(*final(self))),
            outcome is Ok ==> sent(*final(self)) == sent(*old(self)).push(sample),
            outcome matches Err(refused) ==> refused == sample && sent(*final(self)) == sent(
                *old(self),
            ),
    {
        self.inner.try_push(sample)
    }

    /// Adds a captured sample; `false` where the ring is full and the sample is
    /// lost.
    pub fn push(&mut self, sample: u32) -> (stored: bool)
        ensures
            exists|freed: nat| #[trigger]
                takes_place(vacant(*old(self)), freed, stored, vacant(*final(self))),
            vacant(*old(self)) > 0 ==> stored,
            stored ==> vacant(*final(self)) + 1 >= vacant(*old(self)),
            !stored ==> vacant(*final(self)) == 0,
            sent(*final(self)) == if stored {
                sent(*old(self)).push(sample)
            } else {
                sent(*old(self))
            },
    {
        match self.try_push(sample) {
            Ok(_) => true,
            Err(_) => false,
        }
    }
}

impl SampleConsumer {
    /// `ringbuf::traits::Consumer::try_pop`: removes the eldest sample and
    /// returns it, or returns nothing where the ring is empty when looked at.
    /// Only this half removes samples, and the other half only appends, possibly
    /// since this half's last call. What this half has taken grows by what is
    /// returned, and by nothing else.
    #[verifier::external_body]
    fn try_pop(&mut self) -> (item: Option<u32>)
        ensures
            exists|arrived: Seq<u32>| #[trigger]
                removes_oldest(waiting(*old(self)), arrived, item, waiting(*final(self))),
            taken(*final(self)) == match item {
                Some(sample) => taken(*old(self)).push(sample),
                None => taken(*old(self)),
            },
    {
        self.inner.try_pop()
    }

    /// Moves samples from the ring to the end of `batch`, in the order in which
    /// they were captured, until the ring is empty or the batch has reached
    /// `limit`. Every sample taken out of the ring goes to the batch.
    pub fn drain_into(&mut self, batch: &mut Vec<u32>, limit: Option<usize>)
        ensures
            drained(*old(self), *final(self), limit, old(batch)@, final(batch)@),
            taken(*final(self)) == taken(*old(self)) + final(batch)@.skip(
                old(batch)@.len() as int,
            ),
            final(batch)@.len() >= old(batch)@.len(),
            final(batch)@.take(old(batch)@.len() as int) == old(batch)@,
            exists|arrived: Seq<u32>|
                taken(*final(self)) + waiting(*final(self)) == #[trigger] (taken(*old(self))
                    + waiting(*old(self)) + arrived),
            final(batch)@.len() == old(batch)@.len() ==> waiting(*old(self)).len() == 0 && waiting(
                *final(self),
            ).len() == 0,
            limit is None ==> waiting(*final(self)).len() == 0,
            limit matches Some(size) ==> {
                &&& final(batch)@.len() <= size || final(batch)@.len() <= old(batch)@.len() + 1
                &&& final(batch)@.len() < size ==> waiting(*final(self)).len() == 0
            },
    {
        let ghost taken_before = taken(*self);
        let ghost before = waiting(*self);
        let ghost start = batch@;
        let ghost mut arrived = Seq::<u32>::empty();
        let ghost mut n: nat = 0;
        assert(before + arrived == before);
        loop
            invariant_except_break
                n <= (before + arrived).len(),
                batch@ == start + (before + arrived).take(n as int),
                waiting(*self) == (before + arrived).skip(n as int),
                taken(*self) == taken_before + (before + arrived).take(n as int),
                n > 0 ==> (limit matches Some(size) ==> start.len() + n < size),
            ensures
                n == drain_count(start.len(), limit, (before + arrived).len()),
                batch@ == start + (before + arrived).take(n as int),
                waiting(*self) == (before + arrived).skip(n as int),
                taken(*self) == taken_before + (before + arrived).take(n as int),
            decreases usize::MAX - batch.len(),
        {
            let ghost seen = before + arrived;
            let ghost held = waiting(*self);
            let item = self.try_pop();
            proof {
                let more = choose|more: Seq<u32>| #[trigger]
                    removes_oldest(held, more, item, waiting(*self));
                arrived = arrived + more;
                assert(before + arrived == seen + more);
                assert(held + more == (before + arrived).skip(n as int));
                assert((before + arrived).take(n as int) == seen.take(n as int));
            }
            match item {
                Some(sample) => {
                    batch.push(sample);
                    proof {
                        let all = before + arrived;
                        assert(sample == all[n as int]);
                        assert(all.take(n as int + 1) == all.take(n as int).push(sample));
                        assert(all.skip(n as int).drop_first() == all.skip(n as int + 1));
                        n = n + 1;
                    }
                    if let Some(size) = limit {
                        if batch.len() >= size {
                            break;
                        }
                    }
                },
                None => {
                    break;
                },
            }
        }
        proof {
            assert(drains(before, arrived, limit, start, batch@, waiting(*self)));
            assert(batch@.skip(start.len() as int) == (before + arrived).take(n as int));
            drain_moves_the_oldest(*old(self), *self, limit, start, batch@);
        }
    }
}

/// What a drain does to the ring and the batch: of the samples `before`, followed
/// by those that `arrived` while it ran, the oldest move to the end of the batch,
/// as many as the limit allows, and the others stay.
pub open spec fn drains(
    before: Seq<u32>,
    arrived: Seq<u32>,
    limit: Option<usize>,
    batch_before: Seq<u32>,
    batch_after: Seq<u32>,
    after: Seq<u32>,
) -> bool {
    let seen = before + arrived;
    let n = drain_count(batch_before.len(), limit, seen.len()) as int;
    &&& batch_after == batch_before + seen.take(n)
    &&& after == seen.skip(n)
}

/// What a drain does to the consumer and the batch: some samples arrive, the oldest of
/// those there move to the end of the batch, and nothing else leaves the ring.
pub open spec fn drained(
    before: SampleConsumer,
    after: SampleConsumer,
    limit: Option<usize>,
    batch_before: Seq<u32>,
    batch_after: Seq<u32>,
) -> bool {
    &&& exists|arrived: Seq<u32>| #[trigger]
        drains(waiting(before), arrived, limit, batch_before, batch_after, waiting(after))
    &&& taken(after) == taken(before) + batch_after.skip(batch_before.len() as int)
}

/// A drain appends to the batch and changes nothing that was in it. What was ever taken
/// out of the ring, followed by what is still in it, only grows at its end. Where the
/// batch did not grow there was nothing to take. Without a limit nothing seen is left;
/// under one the batch ends at it, or one sample on where it was there already, and
/// short of it only where nothing seen is left.
pub proof fn drain_moves_the_oldest(
    before: SampleConsumer,
    after: SampleConsumer,
    limit: Option<usize>,
    batch_before: Seq<u32>,
    batch_after: Seq<u32>,
)
    requires
        drained(before, after, limit, batch_before, batch_after),
    ensures
        batch_after.len() >= batch_before.len(),
        batch_after.take(batch_before.len() as int) == batch_before,
        taken(after) == taken(before) + batch_after.skip(batch_before.len() as int),
        exists|arrived: Seq<u32>|
            taken(after) + waiting(after) == #[trigger] (taken(before) + waiting(before)
                + arrived),
        batch_after.len() == batch_before.len() ==> waiting(before).len() == 0 && waiting(
            after,
        ).len() == 0,
        limit is None ==> waiting(after).len() == 0,
        limit matches Some(size) ==> {
            &&& batch_after.len() <= size || batch_after.len() <= batch_before.len() + 1
            &&& batch_after.len() < size ==> waiting(after).len() == 0
        },
{
    let arrived = choose|arrived: Seq<u32>| #[trigger]
        drains(waiting(before), arrived, limit, batch_before, batch_after, waiting(after));
    let seen = waiting(before) + arrived;
    let n = drain_count(batch_before.len(), limit, seen.len()) as int;
    assert(batch_after.skip(batch_before.len() as int) =~= seen.take(n));
    assert(batch_after.take(batch_before.len() as int) =~= batch_before);
    assert(taken(after) + waiting(after) =~= taken(before) + waiting(before) + arrived);
}

/// An insertion uses one free place, counting those that were freed until the ring was
/// looked at, and is refused exactly where there is none.
pub proof fn insertion_uses_one_place(before: nat, freed: nat, stored: bool, after: nat)
    requires
        takes_place(before, freed, stored, after),
    ensures
        stored <==> before + freed > 0,
        stored ==> after + 1 == before + freed,
        !stored ==> after == 0,
{
}

/// A removal takes the sample that has been in the ring longest and leaves the others in
/// their order; it finds none only where there is none.
pub proof fn removal_takes_the_oldest(
    before: Seq<u32>,
    arrived: Seq<u32>,
    item: Option<u32>,
    after: Seq<u32>,
)
    requires
        removes_oldest(before, arrived, item, after),
    ensures
        match item {
            Some(sample) => seq![sample] + after == before + arrived,
            None => before.len() == 0 && arrived.len() == 0 && after.len() == 0,
        },
{
    if let Some(sample) = item {
        assert(seq![sample] + after =~= before + arrived);
    }
}

/// No captured sample is lost, repeated or reordered by draining, however often:
/// the batches of a series of drains, joined, are what was taken out of the ring in
/// its course, and what was taken out so far, followed by what is still in the ring,
/// only ever grows at its end, by the samples that arrived.
pub proof fn drains_lose_nothing(
    consumers: Seq<SampleConsumer>,
    limit: Option<usize>,
    batches: Seq<Seq<u32>>,
)
    requires
        consumers.len() == batches.len() + 1,
        forall|k: int|
            #![trigger batches[k]]
            0 <= k < batches.len() ==> drained(
                consumers[k],
                consumers[k + 1],
                limit,
                Seq::empty(),
                batches[k],
            ),
    ensures
        taken(consumers.last()) == taken(consumers[0]) + batches.flatten(),
        exists|arrived: Seq<u32>|
            taken(consumers.last()) + waiting(consumers.last()) == #[trigger] (taken(consumers[0])
                + waiting(consumers[0]) + arrived),
    decreases batches.len(),
{
    let first = consumers[0];
    if batches.len() == 0 {
        assert(batches.flatten() =~= Seq::<u32>::empty());
        assert(taken(first) + waiting(first) =~= taken(first) + waiting(first)
            + Seq::<u32>::empty());
    } else {
        let next = consumers[1];
        let rest = consumers.drop_first();
        let later = batches.drop_first();
        assert forall|k: int| #![trigger later[k]] 0 <= k < later.len() implies drained(
            rest[k],
            rest[k + 1],
            limit,
            Seq::empty(),
            later[k],
        ) by {
            assert(later[k] == batches[k + 1]);
        }
        drains_lose_nothing(rest, limit, later);
        let batch = batches[0];
        assert(drained(first, next, limit, Seq::empty(), batch));
        assert(batch.skip(0) =~= batch);
        assert(batches.flatten() == batch + later.flatten());
        assert(taken(first) + batch + later.flatten() =~= taken(first) + (batch
            + later.flatten()));
        let arrived = choose|arrived: Seq<u32>| #[trigger]
            drains(waiting(first), arrived, limit, Seq::empty(), batch, waiting(next));
        let seen = waiting(first) + arrived;
        assert(batch + waiting(next) =~= seen);
        let more = choose|more: Seq<u32>|
            taken(rest.last()) + waiting(rest.last()) == #[trigger] (taken(rest[0]) + waiting(
                rest[0],
            ) + more);
        assert(taken(next) + waiting(next) =~= taken(first) + (batch + waiting(next)));
        assert(taken(first) + seen + more =~= taken(first) + waiting(first) + (arrived + more));
    }
}

/// Without a limit a drain leaves nothing that it saw. Under a limit it fills a new
/// batch to no more than that, and to exactly that where the ring held as much.
pub proof fn drain_reaches_its_limit(
    before: Seq<u32>,
    arrived: Seq<u32>,
    limit: Option<usize>,
    batch: Seq<u32>,
    after: Seq<u32>,
)
    requires
        drains(before, arrived, limit, Seq::empty(), batch, after),
    ensures
        limit is None ==> after.len() == 0 && batch == before + arrived,
        limit matches Some(size) ==> size > 0 ==> batch.len() <= size && (batch.len() < size
            ==> after.len() == 0) && (before.len() >= size ==> batch == before.take(size as int)),
{
    let seen = before + arrived;
    let n = drain_count(0, limit, seen.len()) as int;
    assert(batch =~= seen.take(n));
    if limit is None {
        assert(batch =~= seen);
    }
    if let Some(size) = limit {
        if size > 0 && before.len() >= size {
            assert(seen.take(n) =~= before.take(size as int));
        }
    }
}

} // verus!
