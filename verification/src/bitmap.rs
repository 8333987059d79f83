//! Eight upgrades as eight flags: the flags stand with the highest bit first.

use vstd::prelude::*;

verus! {

/// The number that the first `n` flags of `bits` spell, highest bit first.
pub open spec fn bits_value(bits: Seq<bool>, n: nat) -> nat
    decreases n,
{
    if n == 0 {
        0
    } else {
        2 * bits_value(bits, (n - 1) as nat) + if bits[n - 1] {
            1nat
        } else {
            0nat
        }
    }
}

/// What the bit `k` of a byte counts for, for `k` from 0 to 7.
pub open spec fn bit_weight(k: int) -> int {
    if k <= 0 {
        1
    } else if k == 1 {
        2
    } else if k == 2 {
        4
    } else if k == 3 {
        8
    } else if k == 4 {
        16
    } else if k == 5 {
        32
    } else if k == 6 {
        64
    } else {
        128
    }
}

/// Whether the flag `i` of `bitmap` is set: flag 0 is the highest bit, flag
/// 7 the lowest.
pub open spec fn flag_of(bitmap: u8, i: int) -> bool {
    bitmap as int / bit_weight(7 - i) % 2 == 1
}

/// Spreads the bits of `bitmap` over eight flags, highest bit first.
pub fn u8_bitmap_to_bool_arr(bitmap: u8) -> (arr: [bool; 8])
    ensures
        forall|i: int| 0 <= i < 8 ==> arr@[i] == flag_of(bitmap, i),
        bits_value(arr@, 8) == bitmap,
{
    let mut arr = [false;8];
    let mut i: usize = 0;
    while i < 8
        invariant
            i <= 8,
            arr@.len() == 8,
            forall|j: int| 0 <= j < i ==> arr@[j] == flag_of(bitmap, j),
        decreases 8 - i,
    {
        let shift: u8 = (8 - i - 1) as u8;
        assert(shift <= 7 ==> ((bitmap >> shift) & 1) == (bitmap >> shift) % 2 && ((shift == 0
            ==> (bitmap >> shift) == bitmap) && (shift == 1 ==> (bitmap >> shift) == bitmap / 2)
            && (shift == 2 ==> (bitmap >> shift) == bitmap / 4) && (shift == 3 ==> (bitmap >> shift)
            == bitmap / 8) && (shift == 4 ==> (bitmap >> shift) == bitmap / 16) && (shift == 5 ==> (
        bitmap >> shift) == bitmap / 32) && (shift == 6 ==> (bitmap >> shift) == bitmap / 64) && (
        shift == 7 ==> (bitmap >> shift) == bitmap / 128))) by (bit_vector);
        arr[i] = ((bitmap >> shift) & 1) == 1;
        i += 1;
    }
    proof {
        lemma_flags_spell(bitmap, arr@);
    }
    arr
}

/// Gathers eight flags into a byte, highest bit first.
pub fn bool_arr_to_u8_bitmap(arr: &[bool; 8]) -> (bitmap: u8)
    ensures
        bitmap == bits_value(arr@, 8),
        forall|i: int| 0 <= i < 8 ==> arr@[i] == flag_of(bitmap, i),
{
    let mut bitmap: u8 = 0u8;
    let mut i: usize = 0;
    while i < 8
        invariant
            i <= 8,
            bitmap == bits_value(arr@, i as nat),
            bitmap < bit_weight(i as int) || i == 8,
        decreases 8 - i,
    {
        let before = bitmap;
        assert(before < 128 ==> (before << 1) == 2 * before && ((before << 1) | 1) == 2 * before + 1
            && ((before << 1) | 0) == 2 * before) by (bit_vector);
        bitmap <<= 1;
        bitmap |= if arr[i] {
            1u8
        } else {
            0u8
        };
        i += 1;
    }
    proof {
        lemma_value_flags(arr@);
    }
    bitmap
}

/// The eight flags of a byte spell the byte.
pub proof fn lemma_flags_spell(bitmap: u8, bits: Seq<bool>)
    requires
        bits.len() == 8,
        forall|i: int| 0 <= i < 8 ==> bits[i] == flag_of(bitmap, i),
    ensures
        bits_value(bits, 8) == bitmap,
{
    reveal_with_fuel(bits_value, 9);
    assert(bits[0] == flag_of(bitmap, 0));
    assert(bits[1] == flag_of(bitmap, 1));
    assert(bits[2] == flag_of(bitmap, 2));
    assert(bits[3] == flag_of(bitmap, 3));
    assert(bits[4] == flag_of(bitmap, 4));
    assert(bits[5] == flag_of(bitmap, 5));
    assert(bits[6] == flag_of(bitmap, 6));
    assert(bits[7] == flag_of(bitmap, 7));
}

/// The byte that eight flags spell has those flags.
pub proof fn lemma_value_flags(bits: Seq<bool>)
    requires
        bits.len() == 8,
    ensures
        bits_value(bits, 8) < 256,
        forall|i: int| 0 <= i < 8 ==> bits[i] == flag_of(bits_value(bits, 8) as u8, i),
{
    reveal_with_fuel(bits_value, 9);
    let v = bits_value(bits, 8);
    assert(v < 256);
    assert(bits[0] == flag_of(v as u8, 0));
    assert(bits[1] == flag_of(v as u8, 1));
    assert(bits[2] == flag_of(v as u8, 2));
    assert(bits[3] == flag_of(v as u8, 3));
    assert(bits[4] == flag_of(v as u8, 4));
    assert(bits[5] == flag_of(v as u8, 5));
    assert(bits[6] == flag_of(v as u8, 6));
    assert(bits[7] == flag_of(v as u8, 7));
}

} // verus!
