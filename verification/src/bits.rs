//! Flag registers and masks read as sets of bit numbers.

use vstd::prelude::*;

verus! {

/// The bit numbers that are set in `mask`.
pub open spec fn set8(mask: u8) -> Set<int> {
    Set::new(|i: int| 0 <= i < 8 && mask & (1u8 << (i as u8)) != 0)
}

/// The bit numbers that are set in `mask`.
pub open spec fn set16(mask: u16) -> Set<int> {
    Set::new(|i: int| 0 <= i < 16 && mask & (1u16 << (i as u16)) != 0)
}

/// The mask with only bit `index` set.
pub fn single8(index: usize) -> (mask: u8)
    requires
        index < 8,
    ensures
        mask == 1u8 << (index as u8),
        set8(mask) == Set::<int>::empty().insert(index as int),
{
    let i: u8 = index as u8;
    let mask: u8 = 1u8 << i;
    proof {
        lemma_empty8();
        lemma_insert8(0u8, index as int);
        lemma_or_zero8(mask);
    }
    mask
}

/// Whether bit `index` of `mask` is set.
pub fn has8(mask: u8, index: usize) -> (set: bool)
    requires
        index < 8,
    ensures
        set == set8(mask).contains(index as int),
{
    mask & single8(index) != 0
}

/// `mask` with bit `index` set.
pub fn insert8(mask: u8, index: usize) -> (result: u8)
    requires
        index < 8,
    ensures
        result == mask | (1u8 << (index as u8)),
        set8(result) == set8(mask).insert(index as int),
{
    proof {
        lemma_insert8(mask, index as int);
    }
    mask | single8(index)
}

/// `mask` with bit `index` cleared.
pub fn remove8(mask: u8, index: usize) -> (result: u8)
    requires
        index < 8,
    ensures
        result == mask & !(1u8 << (index as u8)),
        set8(result) == set8(mask).remove(index as int),
{
    proof {
        lemma_remove8(mask, index as int);
    }
    mask & !single8(index)
}

/// Whether bit `index` of `mask` is set.
pub fn has16(mask: u16, index: usize) -> (set: bool)
    requires
        index < 16,
    ensures
        set == set16(mask).contains(index as int),
{
    let i: u16 = index as u16;
    mask & (1u16 << i) != 0
}

/// No bit of the zero mask is set.
pub proof fn lemma_empty8()
    ensures
        set8(0) == Set::<int>::empty(),
{
    lemma_and_zero8();
    assert(set8(0) =~= Set::<int>::empty());
}

/// Or-ing in a single bit inserts its number.
pub proof fn lemma_insert8(mask: u8, index: int)
    requires
        0 <= index < 8,
    ensures
        set8(mask | (1u8 << (index as u8))) == set8(mask).insert(index),
{
    let m = mask | (1u8 << (index as u8));
    assert forall|j: int| 0 <= j < 8 implies (#[trigger] set8(m).contains(j) <==> set8(
        mask,
    ).insert(index).contains(j)) by {
        lemma_bit_ops8(mask, index as u8, j as u8);
    }
    assert(set8(m) =~= set8(mask).insert(index));
}

/// Masking out a single bit removes its number.
pub proof fn lemma_remove8(mask: u8, index: int)
    requires
        0 <= index < 8,
    ensures
        set8(mask & !(1u8 << (index as u8))) == set8(mask).remove(index),
{
    let m = mask & !(1u8 << (index as u8));
    assert forall|j: int| 0 <= j < 8 implies (#[trigger] set8(m).contains(j) <==> set8(
        mask,
    ).remove(index).contains(j)) by {
        lemma_bit_ops8(mask, index as u8, j as u8);
    }
    assert(set8(m) =~= set8(mask).remove(index));
}

proof fn lemma_or_zero8(mask: u8)
    by (bit_vector)
    ensures
        0u8 | mask == mask,
{
}

proof fn lemma_and_zero8()
    by (bit_vector)
    ensures
        forall|m: u8| #[trigger] (0u8 & m) == 0,
{
}

proof fn lemma_bit_ops8(m: u8, i: u8, j: u8)
    by (bit_vector)
    requires
        i < 8,
        j < 8,
    ensures
        ((m | (1u8 << i)) & (1u8 << j) != 0) <==> (i == j || m & (1u8 << j) != 0),
        ((m & !(1u8 << i)) & (1u8 << j) != 0) <==> (i != j && m & (1u8 << j) != 0),
{
}

/// Or-ing in a single bit inserts its number.
pub proof fn lemma_insert16(mask: u16, index: int)
    requires
        0 <= index < 16,
    ensures
        set16(mask | (1u16 << (index as u16))) == set16(mask).insert(index),
{
    let m = mask | (1u16 << (index as u16));
    assert forall|j: int| 0 <= j < 16 implies (#[trigger] set16(m).contains(j) <==> set16(
        mask,
    ).insert(index).contains(j)) by {
        lemma_bit_ops16(mask, index as u16, j as u16);
    }
    assert(set16(m) =~= set16(mask).insert(index));
}

/// Masking out a single bit removes its number.
pub proof fn lemma_remove16(mask: u16, index: int)
    requires
        0 <= index < 16,
    ensures
        set16(mask & !(1u16 << (index as u16))) == set16(mask).remove(index),
{
    let m = mask & !(1u16 << (index as u16));
    assert forall|j: int| 0 <= j < 16 implies (#[trigger] set16(m).contains(j) <==> set16(
        mask,
    ).remove(index).contains(j)) by {
        lemma_bit_ops16(mask, index as u16, j as u16);
    }
    assert(set16(m) =~= set16(mask).remove(index));
}

/// A single bit is the only one in its mask.
pub proof fn lemma_single16(index: int)
    requires
        0 <= index < 16,
    ensures
        set16(1u16 << (index as u16)) == Set::<int>::empty().insert(index),
{
    let m = 1u16 << (index as u16);
    assert forall|j: int| 0 <= j < 16 implies (#[trigger] set16(m).contains(j) <==> j == index) by {
        lemma_single_bit16(index as u16, j as u16);
    }
    assert(set16(m) =~= Set::<int>::empty().insert(index));
}

proof fn lemma_single_bit16(i: u16, j: u16)
    by (bit_vector)
    requires
        i < 16,
        j < 16,
    ensures
        ((1u16 << i) & (1u16 << j) != 0) <==> i == j,
{
}

proof fn lemma_bit_ops16(m: u16, i: u16, j: u16)
    by (bit_vector)
    requires
        i < 16,
        j < 16,
    ensures
        ((m | (1u16 << i)) & (1u16 << j) != 0) <==> (i == j || m & (1u16 << j) != 0),
        ((m & !(1u16 << i)) & (1u16 << j) != 0) <==> (i != j && m & (1u16 << j) != 0),
{
}

proof fn lemma_digits8(m: u8)
    by (bit_vector)
    ensures
        m & (1u8 << 0u8) != 0 <==> m % 2 == 1,
        m & (1u8 << 1u8) != 0 <==> m / 2 % 2 == 1,
        m & (1u8 << 2u8) != 0 <==> m / 4 % 2 == 1,
        m & (1u8 << 3u8) != 0 <==> m / 8 % 2 == 1,
        m & (1u8 << 4u8) != 0 <==> m / 16 % 2 == 1,
        m & (1u8 << 5u8) != 0 <==> m / 32 % 2 == 1,
        m & (1u8 << 6u8) != 0 <==> m / 64 % 2 == 1,
        m & (1u8 << 7u8) != 0 <==> m / 128 % 2 == 1,
{
}

proof fn lemma_digits16(m: u16)
    by (bit_vector)
    ensures
        m & (1u16 << 0u16) != 0 <==> m % 2 == 1,
        m & (1u16 << 1u16) != 0 <==> m / 2 % 2 == 1,
        m & (1u16 << 2u16) != 0 <==> m / 4 % 2 == 1,
        m & (1u16 << 3u16) != 0 <==> m / 8 % 2 == 1,
        m & (1u16 << 4u16) != 0 <==> m / 16 % 2 == 1,
        m & (1u16 << 5u16) != 0 <==> m / 32 % 2 == 1,
        m & (1u16 << 6u16) != 0 <==> m / 64 % 2 == 1,
        m & (1u16 << 7u16) != 0 <==> m / 128 % 2 == 1,
        m & (1u16 << 8u16) != 0 <==> m / 256 % 2 == 1,
        m & (1u16 << 9u16) != 0 <==> m / 512 % 2 == 1,
        m & (1u16 << 10u16) != 0 <==> m / 1024 % 2 == 1,
        m & (1u16 << 11u16) != 0 <==> m / 2048 % 2 == 1,
        m & (1u16 << 12u16) != 0 <==> m / 4096 % 2 == 1,
        m & (1u16 << 13u16) != 0 <==> m / 8192 % 2 == 1,
        m & (1u16 << 14u16) != 0 <==> m / 16384 % 2 == 1,
        m & (1u16 << 15u16) != 0 <==> m / 32768 % 2 == 1,
{
}

/// The power of two of a bit number.
pub open spec fn weight(index: int) -> int
    decreases index,
{
    if index <= 0 {
        1
    } else {
        2 * weight(index - 1)
    }
}

/// The bit numbers of a mask are the places of the ones among its binary digits.
pub proof fn bit_numbers_are_binary_digits(mask: u8, wide: u16, index: int)
    ensures
        set8(mask).contains(index) <==> 0 <= index < 8 && mask as int / weight(index) % 2 == 1,
        set16(wide).contains(index) <==> 0 <= index < 16 && wide as int / weight(index) % 2 == 1,
{
    lemma_digits8(mask);
    lemma_digits16(wide);
    reveal_with_fuel(weight, 17);
}

} // verus!
