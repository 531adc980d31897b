//! 64-bit counter values as pairs of 32-bit register words.

use vstd::prelude::*;

verus! {

/// The value with the given high and low word.
pub fn join(high: u32, low: u32) -> (value: u64)
    ensures
        value == high * 0x1_0000_0000 + low,
{
    proof {
        lemma_join(high as u64, low as u64);
    }
    ((high as u64) << 32) | low as u64
}

/// The high word of a value.
pub fn high_word(value: u64) -> (high: u32)
    ensures
        high == value / 0x1_0000_0000,
{
    proof {
        lemma_split(value);
    }
    (value >> 32) as u32
}

/// The low word of a value.
pub fn low_word(value: u64) -> (low: u32)
    ensures
        low == value % 0x1_0000_0000,
{
    proof {
        lemma_split(value);
    }
    #[verifier::truncate]
    let low: u32 = value as u32;
    low
}

proof fn lemma_join(high: u64, low: u64)
    by (bit_vector)
    requires
        high < 0x1_0000_0000,
        low < 0x1_0000_0000,
    ensures
        (high << 32) | low == high * 0x1_0000_0000 + low,
{
}

proof fn lemma_split(value: u64)
    by (bit_vector)
    ensures
        value >> 32 == value / 0x1_0000_0000,
        value as u32 == value % 0x1_0000_0000,
{
}

/// A value is its two words, and the words of a joined value are those it was joined of.
pub proof fn words_make_the_value(value: u64, high: u32, low: u32)
    ensures
        call_ensures(high_word, (value,), high) && call_ensures(low_word, (value,), low)
            ==> high * 0x1_0000_0000 + low == value,
        call_ensures(join, (high, low), value) ==> value / 0x1_0000_0000 == high && value
            % 0x1_0000_0000 == low,
{
}

} // verus!
