//! The integer side of the linear resampler: which two input samples each output
//! sample lies between.
//!
//! Samples are the bit patterns of `f32` values. Where the output samples lie is
//! worked out in floating point by the caller, who also carries the position over
//! from one block of input to the next, hands in the input sample that each output
//! sample lies at or after, and interpolates between the pairs that come back. Only
//! where every output sample lies on an input sample are the places whole numbers;
//! those are worked out here.

use crate::system::OUTPUT_SAMPLE_RATE;
use vstd::prelude::*;

verus! {

/// The two samples to interpolate between.
#[derive(Debug, Clone, Copy, PartialEq, Eq, Structural)]
pub struct Taps {
    pub from: u32,
    pub to: u32,
}

/// The pair of samples around a place of a block that is at or after the sample
/// `index` and before the next. After the last sample the pair stays on it.
pub open spec fn taps_at(input: Seq<u32>, index: int) -> Taps {
    Taps {
        from: input[index],
        to: if index + 1 < input.len() {
            input[index + 1]
        } else {
            input.last()
        },
    }
}

/// Gives the pair of samples around each of the places, in order, up to the first
/// that lies beyond the block.
pub fn resample(input: &[u32], indices: &[usize]) -> (pairs: Vec<Taps>)
    ensures
        pairs@.len() <= indices@.len(),
        forall|k: int|
            #![trigger pairs@[k]]
            #![trigger indices@[k]]
            0 <= k < pairs@.len() ==> {
                &&& indices@[k] < input@.len()
                &&& pairs@[k] == taps_at(input@, indices@[k] as int)
                &&& pairs@[k].from == input@[indices@[k] as int]
                &&& pairs@[k].to == if indices@[k] + 1 < input@.len() {
                    input@[indices@[k] + 1]
                } else {
                    input@[input@.len() - 1]
                }
            },
        pairs@.len() < indices@.len() ==> indices@[pairs@.len() as int] >= input@.len(),
{
    let mut pairs: Vec<Taps> = Vec::new();
    let len = input.len();
    let mut i: usize = 0;
    while i < indices.len()
        invariant_except_break
            i == pairs@.len(),
        invariant
            len == input@.len(),
            pairs@.len() <= indices@.len(),
            forall|k: int|
                #![trigger pairs@[k]]
                #![trigger indices@[k]]
                0 <= k < pairs@.len() ==> {
                    &&& indices@[k] < input@.len()
                    &&& pairs@[k] == taps_at(input@, indices@[k] as int)
                    &&& pairs@[k].from == input@[indices@[k] as int]
                    &&& pairs@[k].to == if indices@[k] + 1 < input@.len() {
                        input@[indices@[k] + 1]
                    } else {
                        input@[input@.len() - 1]
                    }
                },
        ensures
            pairs@.len() < indices@.len() ==> indices@[pairs@.len() as int] >= input@.len(),
        decreases indices@.len() - i,
    {
        let index = indices[i];
        if index >= len {
            break;
        }
        let to = if index + 1 < len {
            input[index + 1]
        } else {
            input[len - 1]
        };
        pairs.push(Taps { from: input[index], to });
        i += 1;
    }
    pairs
}

/// The samples from which the output samples at the given places are interpolated.
pub open spec fn from_samples(input: Seq<u32>, indices: Seq<int>) -> Seq<u32> {
    indices.map_values(|index: int| taps_at(input, index).from)
}

/// The places at every `step`-th sample of a block of `len`, the first at `start`.
pub open spec fn walk(start: nat, step: nat, len: nat) -> Seq<int>
    decreases len + step - start,
{
    if start >= len || step == 0 {
        Seq::empty()
    } else {
        seq![start as int] + walk(start + step, step, len)
    }
}

/// Where a walk goes on in the block that follows.
pub open spec fn carried(start: nat, step: nat, len: nat) -> nat
    decreases len + step - start,
{
    if start >= len {
        (start - len) as nat
    } else if step == 0 {
        start
    } else {
        carried(start + step, step, len)
    }
}

/// A resampler whose output takes every `step`-th input sample, as it does where the
/// native rate is a multiple of the output rate: no place lies between two samples.
pub struct WholeStepResampler {
    step: usize,
    start: usize,
}

/// The model of [`WholeStepResampler`].
pub struct WholeStepModel {
    pub step: nat,
    /// Where in the next block the first output sample lies.
    pub start: nat,
}

impl View for WholeStepResampler {
    type V = WholeStepModel;

    closed spec fn view(&self) -> WholeStepModel {
        WholeStepModel { step: self.step as nat, start: self.start as nat }
    }
}

impl WholeStepResampler {
    #[verifier::type_invariant]
    spec fn moves(self) -> bool {
        self.step > 0
    }

    /// A resampler from the native rate to the output rate, where the one is a
    /// multiple of the other.
    pub fn new(native_rate: u32) -> (resampler: Option<Self>)
        ensures
            match resampler {
                Some(resampler) => {
                    &&& resampler@.step > 0
                    &&& native_rate == resampler@.step * OUTPUT_SAMPLE_RATE
                    &&& native_rate == 16000 * resampler@.step
                    &&& resampler@.start == 0
                },
                None => {
                    ||| native_rate == 0
                    ||| native_rate % OUTPUT_SAMPLE_RATE != 0 && native_rate % 16000 != 0
                },
            },
    {
        if native_rate == 0 || native_rate % OUTPUT_SAMPLE_RATE != 0 {
            None
        } else {
            Some(
                WholeStepResampler { step: (native_rate / OUTPUT_SAMPLE_RATE) as usize, start: 0 },
            )
        }
    }

    /// Gives the pair of samples around each output sample of the block, and keeps
    /// the place of the first one of the next block. Maintains state across calls for
    /// seamless streaming.
    pub fn resample(&mut self, input: &[u32]) -> (pairs: Vec<Taps>)
        ensures
            pairs@ == walk(old(self)@.start, old(self)@.step, input@.len()).map_values(
                |index: int| taps_at(input@, index),
            ),
            final(self)@ == (WholeStepModel {
                start: carried(old(self)@.start, old(self)@.step, input@.len()),
                ..old(self)@
            }),
            old(self)@.step > 0,
            final(self)@.step == old(self)@.step,
            old(self)@.start + pairs@.len() * old(self)@.step == input@.len()
                + final(self)@.start,
            pairs@.len() > 0 ==> final(self)@.start < old(self)@.step,
            forall|k: int|
                #![trigger pairs@[k]]
                0 <= k < pairs@.len() ==> {
                    let place = old(self)@.start + k * old(self)@.step;
                    &&& pairs@[k].from == input@[place]
                    &&& pairs@[k].to == if place + 1 < input@.len() {
                        input@[place + 1]
                    } else {
                        input@[input@.len() - 1]
                    }
                },
    {
        proof {
            use_type_invariant(&*self);
        }
        let len = input.len();
        let step = self.step;
        let mut at = self.start;
        let ghost whole = walk(at as nat, step as nat, len as nat);
        let mut indices: Vec<usize> = Vec::new();
        let ghost places = |index: usize| index as int;
        let mut inside = at < len;
        let mut next: usize = if inside {
            0
        } else {
            at - len
        };
        assert(indices@.map_values(places) =~= Seq::<int>::empty());
        while inside
            invariant
                step > 0,
                places == (|index: usize| index as int),
                inside ==> at < len,
                inside ==> whole =~= indices@.map_values(places) + walk(
                    at as nat,
                    step as nat,
                    len as nat,
                ),
                inside ==> carried(at as nat, step as nat, len as nat) == carried(
                    self.start as nat,
                    step as nat,
                    len as nat,
                ),
                !inside ==> whole =~= indices@.map_values(places),
                !inside ==> next == carried(self.start as nat, step as nat, len as nat),
                forall|k: int| 0 <= k < indices@.len() ==> #[trigger] indices@[k] < len,
            decreases if inside { len - at } else { 0 },
        {
            let ghost so_far = indices@.map_values(places);
            indices.push(at);
            assert(indices@.map_values(places) =~= so_far.push(at as int));
            if step >= len - at {
                next = step - (len - at);
                inside = false;
                assert(walk((at + step) as nat, step as nat, len as nat) == Seq::<int>::empty());
                assert(carried((at + step) as nat, step as nat, len as nat) == next);
            } else {
                at += step;
            }
        }
        self.start = next;
        let pairs = resample(input, &indices);
        assert(pairs@.len() == indices@.len());
        assert forall|k: int| 0 <= k < pairs@.len() implies #[trigger] pairs@[k] == taps_at(
            input@,
            whole[k],
        ) by {
            assert(whole[k] == indices@[k] as int);
        }
        assert(pairs@ =~= whole.map_values(|index: int| taps_at(input@, index)));
        proof {
            let start = old(self)@.start;
            places_are_evenly_spaced(start, step as nat, len as nat);
            assert forall|k: int| #![trigger pairs@[k]] 0 <= k < pairs@.len() implies {
                let place = start + k * old(self)@.step;
                &&& pairs@[k].from == input@[place]
                &&& pairs@[k].to == if place + 1 < input@.len() {
                    input@[place + 1]
                } else {
                    input@[input@.len() - 1]
                }
            } by {
                place_of_each(start, step as nat, len as nat, k);
                assert(whole[k] == indices@[k] as int);
            }
        }
        pairs
    }
}

/// Places moved on by the length of the block before.
pub open spec fn moved(indices: Seq<int>, by: nat) -> Seq<int> {
    indices.map_values(|index: int| index + by)
}

/// An output sample is interpolated from the very sample at or before its place,
/// whatever its bits, to the very next one, or to that sample itself after the last.
pub proof fn taps_are_the_neighbours(input: Seq<u32>, index: int)
    requires
        0 <= index < input.len(),
    ensures
        taps_at(input, index).from == input[index],
        index + 1 < input.len() ==> taps_at(input, index).to == input[index + 1],
        index + 1 == input.len() ==> taps_at(input, index).to == input[index],
{
}

/// Each of the samples interpolated from is the input sample at its place.
pub proof fn from_samples_are_the_input(input: Seq<u32>, indices: Seq<int>, k: int)
    requires
        0 <= k < indices.len(),
        0 <= indices[k] < input.len(),
    ensures
        from_samples(input, indices).len() == indices.len(),
        from_samples(input, indices)[k] == input[indices[k]],
{
}

/// The k-th place of a walk is k steps from its start, within the block.
pub proof fn place_of_each(start: nat, step: nat, len: nat, k: int)
    requires
        0 <= k < walk(start, step, len).len(),
    ensures
        walk(start, step, len)[k] == start + k * step,
        0 <= walk(start, step, len)[k] < len,
    decreases len + step - start,
{
    walk_within(start, step, len, k);
    if k > 0 {
        assert(walk(start, step, len)[k] == walk(start + step, step, len)[k - 1]);
        place_of_each(start + step, step, len, k - 1);
        assert(start + step + (k - 1) * step == start + k * step) by (nonlinear_arith);
    } else {
        assert(0 * step == 0) by (nonlinear_arith);
    }
}

/// A walk takes every place of its block and goes on in the next block as if there
/// were no cut: the place after its last one lies beyond the block, by what is carried
/// over, and where the walk took any place that is less than a step.
pub proof fn places_are_evenly_spaced(start: nat, step: nat, len: nat)
    requires
        step > 0,
    ensures
        start + walk(start, step, len).len() * step == len + carried(start, step, len),
        walk(start, step, len).len() > 0 ==> carried(start, step, len) < step,
        walk(start, step, len).len() == 0 <==> start >= len,
    decreases len + step - start,
{
    if start < len {
        places_are_evenly_spaced(start + step, step, len);
        let n = walk(start + step, step, len).len();
        assert(walk(start, step, len).len() == n + 1);
        assert(start + step + n * step == start + (n + 1) * step) by (nonlinear_arith);
        if n == 0 {
            assert(start + step >= len);
            assert(carried(start, step, len) == (start + step - len) as nat);
        }
    } else {
        assert(0 * step == 0) by (nonlinear_arith);
    }
}

/// Resampling by whole steps picks every `step`-th sample of a block, from `start` on:
/// the k-th output sample is interpolated from the one k steps on, whatever its bits,
/// and there is a k-th one exactly where the block reaches that far.
pub proof fn every_step_is_taken(input: Seq<u32>, start: nat, step: nat, k: nat)
    requires
        step > 0,
    ensures
        ({
            let picked = from_samples(input, walk(start, step, input.len()));
            &&& k < picked.len() <==> start + k * step < input.len()
            &&& k < picked.len() ==> picked[k as int] == input[(start + k * step) as int]
        }),
{
    let places = walk(start, step, input.len());
    places_are_evenly_spaced(start, step, input.len());
    if k < places.len() {
        place_of_each(start, step, input.len(), k as int);
        from_samples_are_the_input(input, places, k as int);
    } else {
        assert(k * step >= places.len() * step) by (nonlinear_arith)
            requires
                k >= places.len(),
        ;
    }
}

/// Where a stream is cut into blocks changes no sample from which an output sample
/// is interpolated. It changes the sample interpolated to only after the last sample
/// of the first block, where that sample stands in for the one that follows.
pub proof fn cuts_keep_taps(block: Seq<u32>, next: Seq<u32>, index: int)
    requires
        0 <= index < block.len() + next.len(),
    ensures
        index < block.len() ==> taps_at(block + next, index).from == taps_at(block, index).from,
        index >= block.len() ==> taps_at(block + next, index) == taps_at(
            next,
            index - block.len(),
        ),
        index + 1 < block.len() ==> taps_at(block + next, index) == taps_at(block, index),
        index + 1 == block.len() ==> taps_at(block, index).to == block.last(),
{
}

proof fn walk_within(start: nat, step: nat, len: nat, k: int)
    requires
        0 <= k < walk(start, step, len).len(),
    ensures
        0 <= walk(start, step, len)[k] < len,
    decreases len + step - start,
{
    if k > 0 {
        assert(walk(start, step, len)[k] == walk(start + step, step, len)[k - 1]);
        walk_within(start + step, step, len, k - 1);
    }
}

proof fn walk_moves(start: nat, step: nat, len: nat, by: nat)
    ensures
        walk(start + by, step, len + by) == moved(walk(start, step, len), by),
    decreases len + step - start,
{
    if start < len && step > 0 {
        walk_moves(start + step, step, len, by);
        assert(start + by + step == start + step + by);
        assert(moved(walk(start, step, len), by) =~= seq![(start + by) as int] + moved(
            walk(start + step, step, len),
            by,
        ));
    } else {
        assert(moved(walk(start, step, len), by) =~= Seq::<int>::empty());
    }
}

proof fn walk_splits(start: nat, step: nat, len: nat, more: nat)
    requires
        step > 0,
    ensures
        walk(start, step, len + more) == walk(start, step, len) + moved(
            walk(carried(start, step, len), step, more),
            len,
        ),
    decreases len + step - start,
{
    let rest = moved(walk(carried(start, step, len), step, more), len);
    if start < len {
        walk_splits(start + step, step, len, more);
        assert(walk(start, step, len) + rest =~= seq![start as int] + (walk(
            start + step,
            step,
            len,
        ) + rest));
    } else {
        walk_moves((start - len) as nat, step, more, len);
        assert(walk(start, step, len) + rest =~= rest);
    }
}

/// Streaming is seamless: where the output takes every `step`-th sample, resampling a
/// stream in two blocks, the second from the place carried over, gives the very
/// samples that resampling it uncut gives, however each of them is scaled, and leaves
/// the same place to go on from.
pub proof fn blocks_join_seamlessly(
    block: Seq<u32>,
    next: Seq<u32>,
    start: nat,
    step: nat,
    scale: spec_fn(u32) -> i16,
)
    requires
        step > 0,
    ensures
        ({
            let uncut = from_samples(
                block + next,
                walk(start, step, block.len() + next.len()),
            );
            let first = from_samples(block, walk(start, step, block.len()));
            let second = from_samples(
                next,
                walk(carried(start, step, block.len()), step, next.len()),
            );
            &&& uncut == first + second
            &&& uncut.map_values(scale) == first.map_values(scale) + second.map_values(scale)
        }),
        carried(start, step, block.len() + next.len()) == carried(
            carried(start, step, block.len()),
            step,
            next.len(),
        ),
{
    let here = walk(start, step, block.len());
    let there = walk(carried(start, step, block.len()), step, next.len());
    walk_splits(start, step, block.len(), next.len());
    assert forall|k: int| 0 <= k < here.len() implies 0 <= #[trigger] here[k] < block.len() by {
        walk_within(start, step, block.len(), k);
    }
    assert forall|k: int| 0 <= k < there.len() implies 0 <= #[trigger] there[k] < next.len() by {
        walk_within(carried(start, step, block.len()), step, next.len(), k);
    }
    assert(from_samples(block + next, here + moved(there, block.len())) =~= from_samples(
        block,
        here,
    ) + from_samples(next, there));
    assert((from_samples(block, here) + from_samples(next, there)).map_values(scale)
        =~= from_samples(block, here).map_values(scale) + from_samples(next, there).map_values(
        scale,
    ));
    carried_on(start, step, block.len(), next.len());
}

proof fn carried_on(start: nat, step: nat, len: nat, more: nat)
    requires
        step > 0,
    ensures
        carried(start, step, len + more) == carried(carried(start, step, len), step, more),
    decreases len + step - start,
{
    if start < len {
        carried_on(start + step, step, len, more);
    } else {
        carried_back(start, step, len, more);
    }
}

proof fn carried_back(start: nat, step: nat, len: nat, more: nat)
    requires
        step > 0,
        start >= len,
    ensures
        carried(start, step, len + more) == carried((start - len) as nat, step, more),
    decreases len + more + step - start,
{
    if start < len + more {
        carried_back(start + step, step, len, more);
        assert((start - len) as nat + step == (start + step - len) as nat);
    }
}

} // verus!
