//! Reading a signal back, as the controller in a LED does: by the length of
//! each high phase.

use crate::encoder::{byte_bits, byte_signal};
use crate::pulse::Pulse;
use crate::timing::{lemma_timing_at, BitTiming, MIN_DISTINCT_HZ};
use vstd::arithmetic::power2::{lemma2_to64, lemma_pow2_strictly_increases, lemma_pow2_unfold, pow2};
use vstd::prelude::*;

verus! {

/// How far two tick counts lie apart.
pub open spec fn gap(a: u16, b: u16) -> int {
    if a >= b {
        a - b
    } else {
        b - a
    }
}

/// The bit that a pulse pair is read as: a one where its high phase is
/// closer to the high phase of a one than to that of a zero.
pub open spec fn read_bit(pair: (Pulse, Pulse), timing: BitTiming) -> bool {
    gap(pair.0.ticks, timing.t1h.ticks) < gap(pair.0.ticks, timing.t0h.ticks)
}

/// The bits that a signal is read as, pair by pair.
pub open spec fn read_bits(pairs: Seq<(Pulse, Pulse)>, timing: BitTiming) -> Seq<bool> {
    Seq::new(pairs.len(), |k: int| read_bit(pairs[k], timing))
}

/// The number that `bits` spell in binary, most significant bit first.
pub open spec fn bits_value(bits: Seq<bool>) -> nat
    decreases bits.len(),
{
    if bits.len() == 0 {
        0
    } else {
        2 * bits_value(bits.drop_last()) + if bits.last() {
            1nat
        } else {
            0nat
        }
    }
}

/// The byte that eight pulse pairs are read as.
pub open spec fn read_byte(pairs: Seq<(Pulse, Pulse)>, timing: BitTiming) -> u8 {
    bits_value(read_bits(pairs, timing)) as u8
}

/// A number spelled with `n` bits is below two to the `n`.
pub proof fn lemma_bits_value_bound(bits: Seq<bool>)
    ensures
        bits_value(bits) < pow2(bits.len()),
    decreases bits.len(),
{
    if bits.len() == 0 {
        lemma2_to64();
    } else {
        lemma_bits_value_bound(bits.drop_last());
        lemma_pow2_unfold(bits.len());
    }
}

/// The bit that `pair` is read as.
pub fn classify(pair: &(Pulse, Pulse), timing: &BitTiming) -> (bit: bool)
    ensures
        bit == read_bit(*pair, *timing),
{
    let high: u16 = pair.0.ticks;
    let one: u16 = timing.t1h.ticks;
    let zero: u16 = timing.t0h.ticks;
    let to_one: u16 = if high >= one {
        high - one
    } else {
        one - high
    };
    let to_zero: u16 = if high >= zero {
        high - zero
    } else {
        zero - high
    };
    to_one < to_zero
}

/// The byte that `pairs` are read as, most significant bit first; `None`
/// unless there are exactly eight pairs.
pub fn decode_byte(pairs: &[(Pulse, Pulse)], timing: &BitTiming) -> (r: Option<u8>)
    ensures
        r == if pairs@.len() == 8 {
            Some(read_byte(pairs@, *timing))
        } else {
            None
        },
{
    if pairs.len() != 8 {
        return None;
    }
    let ghost bits = read_bits(pairs@, *timing);
    let mut value: u8 = 0;
    let mut k: usize = 0;
    while k < 8
        invariant
            k <= 8,
            pairs@.len() == 8,
            bits == read_bits(pairs@, *timing),
            value == bits_value(bits.take(k as int)),
        decreases 8 - k,
    {
        let bit = classify(&pairs[k], timing);
        proof {
            let next = bits.take(k + 1);
            assert(next.drop_last() =~= bits.take(k as int));
            assert(next.last() == bit);
            lemma_bits_value_bound(next);
            lemma2_to64();
            if k + 1 < 8 {
                lemma_pow2_strictly_increases((k + 1) as nat, 8);
            }
        }
        value = 2 * value + if bit {
            1
        } else {
            0
        };
        k += 1;
    }
    assert(bits.take(8) =~= bits);
    Some(value)
}

/// The eight bits of a byte, most significant first, spell the byte.
pub proof fn lemma_byte_bits_value(byte: u8)
    ensures
        bits_value(byte_bits(byte)) == byte,
{
    let bits = byte_bits(byte);
    assert forall|n: int| 0 <= n < 8 implies #[trigger] bits.take(n + 1).drop_last() == bits.take(
        n,
    ) by {
        assert(bits.take(n + 1).drop_last() =~= bits.take(n));
    }
    assert(bits.take(8) =~= bits);
    reveal_with_fuel(bits_value, 9);
    assert(byte == 128 * (if (byte >> 7u32) & 1 == 1 { 1u32 } else { 0u32 })
        + 64 * (if (byte >> 6u32) & 1 == 1 { 1u32 } else { 0u32 })
        + 32 * (if (byte >> 5u32) & 1 == 1 { 1u32 } else { 0u32 })
        + 16 * (if (byte >> 4u32) & 1 == 1 { 1u32 } else { 0u32 })
        + 8 * (if (byte >> 3u32) & 1 == 1 { 1u32 } else { 0u32 })
        + 4 * (if (byte >> 2u32) & 1 == 1 { 1u32 } else { 0u32 })
        + 2 * (if (byte >> 1u32) & 1 == 1 { 1u32 } else { 0u32 })
        + (if (byte >> 0u32) & 1 == 1 { 1u32 } else { 0u32 })) by (bit_vector);
}

/// Reading back the pulse pairs of a byte gives the byte again, for every
/// timing that keeps the two bits apart.
pub proof fn lemma_byte_round_trip(byte: u8, timing: BitTiming)
    requires
        timing.distinct(),
    ensures
        read_bits(byte_signal(byte, timing), timing) == byte_bits(byte),
        read_byte(byte_signal(byte, timing), timing) == byte,
{
    assert(read_bits(byte_signal(byte, timing), timing) =~= byte_bits(byte));
    lemma_byte_bits_value(byte);
}

/// At any clock from [`MIN_DISTINCT_HZ`] on, reading back the pulse pairs
/// that the nominal timing gives a byte returns the byte.
pub proof fn lemma_byte_round_trip_at(byte: u8, ticks_hz: u32)
    requires
        ticks_hz >= MIN_DISTINCT_HZ,
    ensures
        read_byte(byte_signal(byte, BitTiming::at(ticks_hz)), BitTiming::at(ticks_hz)) == byte,
{
    lemma_timing_at(ticks_hz);
    lemma_byte_round_trip(byte, BitTiming::at(ticks_hz));
}

} // verus!
