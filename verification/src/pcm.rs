//! Signed 16-bit samples and their little-endian byte form.

use vstd::prelude::*;

verus! {

/// The two's-complement value of a sample: negative ones count down from 2^16.
pub open spec fn unsigned_value(sample: i16) -> int {
    if sample < 0 {
        sample + 0x1_0000
    } else {
        sample as int
    }
}

/// The sample whose two's-complement value has the given low and high byte.
pub open spec fn sample_of_bytes(low: u8, high: u8) -> i16 {
    let value = low + high * 0x100;
    if value >= 0x8000 {
        (value - 0x1_0000) as i16
    } else {
        value as i16
    }
}

/// The byte form of a run of samples: two bytes for each, the low one first.
pub open spec fn le_bytes(samples: Seq<i16>) -> Seq<u8> {
    Seq::new(
        2 * samples.len(),
        |k: int|
            if k % 2 == 0 {
                (unsigned_value(samples[k / 2]) % 0x100) as u8
            } else {
                (unsigned_value(samples[k / 2]) / 0x100) as u8
            },
    )
}

/// The samples that a run of little-endian byte pairs stands for.
pub open spec fn samples_of_le_bytes(bytes: Seq<u8>) -> Seq<i16> {
    Seq::new(bytes.len() / 2, |k: int| sample_of_bytes(bytes[2 * k], bytes[2 * k + 1]))
}

/// A run of `len` equal values.
pub open spec fn repeated<T>(value: T, len: nat) -> Seq<T> {
    Seq::new(len, |k: int| value)
}

/// A run of samples is silent: all of them are zero, and so is their mean square.
pub open spec fn is_silent(samples: Seq<i16>) -> bool {
    forall|k: int| 0 <= k < samples.len() ==> samples[k] == 0
}

/// Convert an i16 slice to little-endian bytes.
pub fn i16_slice_to_le_bytes(samples: &[i16]) -> (bytes: Vec<u8>)
    ensures
        bytes@ == le_bytes(samples@),
        bytes@.len() == 2 * samples@.len(),
        forall|k: int|
            0 <= k < samples@.len() ==> bytes@[2 * k] + 0x100 * bytes@[2 * k + 1] == #[trigger]
            samples@[k] + if samples@[k] < 0 {
                0x1_0000int
            } else {
                0
            },
{
    let mut bytes: Vec<u8> = Vec::new();
    let mut i: usize = 0;
    while i < samples.len()
        invariant
            i <= samples@.len(),
            bytes@ == le_bytes(samples@.take(i as int)),
        decreases samples@.len() - i,
    {
        let sample = samples[i];
        let value: u16 = if sample < 0 {
            (sample as i32 + 0x1_0000) as u16
        } else {
            sample as u16
        };
        bytes.push((value % 0x100) as u8);
        bytes.push((value / 0x100) as u8);
        i += 1;
        assert(samples@.take(i as int).len() == i);
    }
    assert(samples@.take(i as int) == samples@);
    proof {
        assert forall|k: int| 0 <= k < samples@.len() implies bytes@[2 * k] + 0x100 * bytes@[2 * k
            + 1] == #[trigger] samples@[k] + if samples@[k] < 0 {
            0x1_0000int
        } else {
            0
        } by {
            bytes_of_each_sample(samples@, k);
        }
    }
    bytes
}

/// Check if all i16 samples are zero (silence detection at native sample rate).
pub fn is_all_silence(samples: &[i16]) -> (silent: bool)
    ensures
        silent == is_silent(samples@),
        silent <==> forall|k: int| 0 <= k < samples@.len() ==> samples@[k] == 0,
{
    let mut i: usize = 0;
    while i < samples.len()
        invariant
            i <= samples@.len(),
            forall|k: int| 0 <= k < i ==> samples@[k] == 0,
        decreases samples@.len() - i,
    {
        if samples[i] != 0 {
            return false;
        }
        i += 1;
    }
    true
}

/// The byte form of one frame of silence: two zero bytes for each of its samples.
pub fn silent_frame_bytes(chunk_size: usize) -> (bytes: Vec<u8>)
    requires
        2 * chunk_size <= usize::MAX,
    ensures
        bytes@ == repeated(0u8, 2 * chunk_size as nat),
        bytes@.len() == 2 * chunk_size,
        forall|k: int| 0 <= k < bytes@.len() ==> bytes@[k] == 0,
{
    vec![0u8; chunk_size * 2]
}

/// The byte form has two bytes for each sample and no others, and the two of each
/// sample, the low one first, make up its two's-complement value.
pub proof fn bytes_of_each_sample(samples: Seq<i16>, k: int)
    requires
        0 <= k < samples.len(),
    ensures
        le_bytes(samples).len() == 2 * samples.len(),
        le_bytes(samples)[2 * k] + 0x100 * le_bytes(samples)[2 * k + 1] == samples[k]
            + if samples[k] < 0 {
            0x1_0000int
        } else {
            0
        },
{
    assert((2 * k) / 2 == k && (2 * k + 1) / 2 == k);
    assert((2 * k) % 2 == 0 && (2 * k + 1) % 2 == 1);
}

/// No bytes stand for no samples.
pub proof fn no_samples_no_bytes()
    ensures
        le_bytes(Seq::empty()).len() == 0,
        samples_of_le_bytes(Seq::empty()).len() == 0,
{
}

/// Each pair of bytes stands for the sample whose two's-complement value they make up,
/// and nothing else is read from them.
pub proof fn sample_of_each_pair(bytes: Seq<u8>, k: int)
    requires
        0 <= k < bytes.len() / 2,
    ensures
        samples_of_le_bytes(bytes).len() == bytes.len() / 2,
        ({
            let sample = samples_of_le_bytes(bytes)[k];
            sample + if sample < 0 {
                0x1_0000int
            } else {
                0
            } == bytes[2 * k] + 0x100 * bytes[2 * k + 1]
        }),
{
}

/// Bytes that are whole pairs, joined to others, stand for the samples of the one
/// followed by those of the other: what is joined to them is not shifted.
pub proof fn decoded_parts_join(left: Seq<u8>, right: Seq<u8>)
    requires
        left.len() % 2 == 0,
    ensures
        samples_of_le_bytes(left + right) == samples_of_le_bytes(left) + samples_of_le_bytes(right),
{
    let joined = samples_of_le_bytes(left + right);
    let half = left.len() / 2;
    assert((left + right).len() / 2 == half + right.len() / 2);
    assert forall|k: int| 0 <= k < joined.len() implies joined[k] == (samples_of_le_bytes(left)
        + samples_of_le_bytes(right))[k] by {
        if k < half {
            assert((left + right)[2 * k] == left[2 * k]);
            assert((left + right)[2 * k + 1] == left[2 * k + 1]);
        } else {
            assert((left + right)[2 * k] == right[2 * (k - half)]);
            assert((left + right)[2 * k + 1] == right[2 * (k - half) + 1]);
        }
    }
    assert(joined =~= samples_of_le_bytes(left) + samples_of_le_bytes(right));
}

/// Samples are silent where none of them is other than zero, and only there.
pub proof fn silence_is_zeros(samples: Seq<i16>)
    ensures
        is_silent(samples) <==> forall|k: int| 0 <= k < samples.len() ==> samples[k] == 0,
{
}

/// A run of equal values has that value everywhere and the length it was given.
pub proof fn repeated_is_everywhere<T>(value: T, len: nat, k: int)
    requires
        0 <= k < len,
    ensures
        repeated(value, len).len() == len,
        repeated(value, len)[k] == value,
{
}

/// Decoding what was encoded gives the samples back.
pub proof fn le_bytes_round_trip(samples: Seq<i16>)
    ensures
        samples_of_le_bytes(le_bytes(samples)) == samples,
{
    let bytes = le_bytes(samples);
    assert forall|k: int| 0 <= k < samples.len() implies sample_of_bytes(
        bytes[2 * k],
        bytes[2 * k + 1],
    ) == samples[k] by {
        assert((2 * k) / 2 == k && (2 * k + 1) / 2 == k);
        assert((2 * k) % 2 == 0 && (2 * k + 1) % 2 == 1);
    }
    assert(bytes.len() / 2 == samples.len());
    assert(samples_of_le_bytes(bytes) =~= samples);
}

/// Two runs of samples with the same byte form are the same run.
pub proof fn le_bytes_injective(left: Seq<i16>, right: Seq<i16>)
    requires
        le_bytes(left) == le_bytes(right),
    ensures
        left == right,
{
    le_bytes_round_trip(left);
    le_bytes_round_trip(right);
}

/// Encoding a run in pieces gives the pieces of its byte form.
pub proof fn le_bytes_of_concatenation(left: Seq<i16>, right: Seq<i16>)
    ensures
        le_bytes(left + right) == le_bytes(left) + le_bytes(right),
{
    assert(le_bytes(left + right) =~= le_bytes(left) + le_bytes(right));
}

/// A run of samples is silent exactly where its byte form holds zeros only.
pub proof fn silence_is_zero_bytes(samples: Seq<i16>)
    ensures
        is_silent(samples) <==> le_bytes(samples) == repeated(0u8, 2 * samples.len()),
{
    let zeros = repeated(0u8, 2 * samples.len());
    if le_bytes(samples) == zeros {
        assert forall|k: int| 0 <= k < samples.len() implies samples[k] == 0 by {
            assert(zeros[2 * k] == 0 && zeros[2 * k + 1] == 0);
            assert((2 * k) / 2 == k && (2 * k + 1) / 2 == k);
            assert((2 * k) % 2 == 0 && (2 * k + 1) % 2 == 1);
        }
    }
    if is_silent(samples) {
        assert(le_bytes(samples) =~= zeros);
    }
}

/// The silent payload is the byte form of a frame of zero samples.
pub proof fn silent_payload_is_encoded_zeros(chunk_size: nat)
    ensures
        le_bytes(repeated(0i16, chunk_size)) == repeated(0u8, 2 * chunk_size),
{
    silence_is_zero_bytes(repeated(0i16, chunk_size));
}

} // verus!
