use vstd::prelude::*;

verus! {

/// Whether the bit of `value` that `mask` names is set; `mask` is a power
/// of two.
pub open spec fn has_bit(value: u8, mask: u8) -> bool {
    (value / mask) % 2 == 1
}

/// `mask` where `on` holds, else 0.
pub open spec fn bit_if(on: bool, mask: u8) -> u8 {
    if on {
        mask
    } else {
        0
    }
}

/// 2 to the power of `bit`, for the bits of a byte.
pub open spec fn mask_of(bit: int) -> u8 {
    if bit <= 0 {
        1
    } else if bit == 1 {
        2
    } else if bit == 2 {
        4
    } else if bit == 3 {
        8
    } else if bit == 4 {
        16
    } else if bit == 5 {
        32
    } else if bit == 6 {
        64
    } else {
        128
    }
}

/// Bit `bit` of `value` as 0 or 1.
pub open spec fn bit_at(value: u8, bit: int) -> u8 {
    (value / mask_of(bit)) % 2
}

pub fn test_bit(value: u8, mask: u8) -> (set: bool)
    requires
        mask > 0,
    ensures
        set == has_bit(value, mask),
{
    (value / mask) % 2 == 1
}

pub fn flag_bit(on: bool, mask: u8) -> (bits: u8)
    ensures
        bits == bit_if(on, mask),
{
    if on {
        mask
    } else {
        0
    }
}

pub fn bit_mask(bit: u8) -> (mask: u8)
    ensures
        mask == mask_of(bit as int),
        mask > 0,
{
    if bit == 0 {
        1
    } else if bit == 1 {
        2
    } else if bit == 2 {
        4
    } else if bit == 3 {
        8
    } else if bit == 4 {
        16
    } else if bit == 5 {
        32
    } else if bit == 6 {
        64
    } else {
        128
    }
}

pub fn get_bit(value: u8, bit: u8) -> (b: u8)
    ensures
        b == bit_at(value, bit as int),
        b <= 1,
{
    (value / bit_mask(bit)) % 2
}

/// The arithmetic reading of a bit agrees with the bitwise one.
pub proof fn lemma_bit_at(value: u8, bit: u8)
    requires
        bit < 8,
    ensures
        bit_at(value, bit as int) == (value >> bit) & 1,
        has_bit(value, mask_of(bit as int)) == (value & (1u8 << bit) != 0),
{
    assert(bit < 8 ==> (value / (1u8 << bit)) % 2 == (value >> bit) & 1) by (bit_vector);
    assert(bit < 8 ==> ((value >> bit) & 1 == 1 <==> value & (1u8 << bit) != 0)) by (bit_vector);
    assert(1u8 << 0u8 == 1 && 1u8 << 1u8 == 2 && 1u8 << 2u8 == 4 && 1u8 << 3u8 == 8 && 1u8 << 4u8
        == 16 && 1u8 << 5u8 == 32 && 1u8 << 6u8 == 64 && 1u8 << 7u8 == 128) by (bit_vector);
}

} // verus!
