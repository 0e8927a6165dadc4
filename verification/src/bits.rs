use vstd::prelude::*;

verus! {

/// Whether bit `index` of `value` is set.
pub open spec fn bit_of_u32(value: u32, index: u32) -> bool {
    (value >> index) & 1u32 == 1u32
}

/// Whether bit `index` of `value` is set.
pub open spec fn bit_of_u16(value: u16, index: u16) -> bool {
    (value >> index) & 1u16 == 1u16
}

/// Whether bit `index` of `value` is set.
pub open spec fn bit_of_u8(value: u8, index: u8) -> bool {
    (value >> index) & 1u8 == 1u8
}

/// `value` with bit `index` forced to `set`.
pub open spec fn with_bit_u32(value: u32, index: u32, set: bool) -> u32 {
    if set {
        value | (1u32 << index)
    } else {
        value & !(1u32 << index)
    }
}

/// `value` with bit `index` forced to `set`.
pub open spec fn with_bit_u16(value: u16, index: u16, set: bool) -> u16 {
    if set {
        value | (1u16 << index)
    } else {
        value & !(1u16 << index)
    }
}

/// The `width`-bit field of `value` that starts at bit `low`.
pub open spec fn field_u32(value: u32, low: u32, width: u32) -> u32 {
    (value >> low) & (((1u32 << width) - 1u32) as u32)
}

/// The `width`-bit field of `value` that starts at bit `low`.
pub open spec fn field_u16(value: u16, low: u16, width: u16) -> u16 {
    (value >> low) & (((1u16 << width) - 1u16) as u16)
}

/// `value` with its `width`-bit field at bit `low` replaced by the low bits of `field`.
pub open spec fn with_field_u16(value: u16, field: u16, low: u16, width: u16) -> u16 {
    let mask: u16 = (((1u16 << width) - 1u16) as u16);
    (value & !(mask << low)) | ((field & mask) << low)
}

/// `value` with its `width`-bit field at bit `low` replaced by the low bits of `field`.
pub open spec fn with_field_u32(value: u32, field: u32, low: u32, width: u32) -> u32 {
    let mask: u32 = (((1u32 << width) - 1u32) as u32);
    (value & !(mask << low)) | ((field & mask) << low)
}

pub fn get_bit_u32(value: u32, index: u32) -> (r: bool)
    requires
        index < 32,
    ensures
        r == bit_of_u32(value, index),
{
    (value >> index) & 1u32 == 1u32
}

pub fn get_bit_u16(value: u16, index: u16) -> (r: bool)
    requires
        index < 16,
    ensures
        r == bit_of_u16(value, index),
{
    (value >> index) & 1u16 == 1u16
}

pub fn get_bit_u8(value: u8, index: u8) -> (r: bool)
    requires
        index < 8,
    ensures
        r == bit_of_u8(value, index),
{
    (value >> index) & 1u8 == 1u8
}

pub fn set_bit_u32(value: u32, index: u32, set: bool) -> (r: u32)
    requires
        index < 32,
    ensures
        r == with_bit_u32(value, index, set),
        bit_of_u32(r, index) == set,
        forall|j: u32| j < 32 && j != index ==> bit_of_u32(r, j) == bit_of_u32(value, j),
{
    let r = if set {
        value | (1u32 << index)
    } else {
        value & !(1u32 << index)
    };
    proof {
        lemma_with_bit_u32(value, index, set);
    }
    r
}

pub fn set_bit_u16(value: u16, index: u16, set: bool) -> (r: u16)
    requires
        index < 16,
    ensures
        r == with_bit_u16(value, index, set),
        bit_of_u16(r, index) == set,
        forall|j: u16| j < 16 && j != index ==> bit_of_u16(r, j) == bit_of_u16(value, j),
{
    let r = if set {
        value | (1u16 << index)
    } else {
        value & !(1u16 << index)
    };
    proof {
        lemma_with_bit_u16(value, index, set);
    }
    r
}

pub fn get_field_u32(value: u32, low: u32, width: u32) -> (r: u32)
    requires
        low < 32,
        0 < width < 32,
    ensures
        r == field_u32(value, low, width),
{
    proof {
        lemma_u32_bit_update(0, width, 0);
    }
    (value >> low) & ((1u32 << width) - 1)
}

pub fn get_field_u16(value: u16, low: u16, width: u16) -> (r: u16)
    requires
        low < 16,
        0 < width < 16,
    ensures
        r == field_u16(value, low, width),
{
    proof {
        lemma_u16_bit_update(0, width, 0);
    }
    (value >> low) & ((1u16 << width) - 1)
}

pub fn set_field_u16(value: u16, field: u16, low: u16, width: u16) -> (r: u16)
    requires
        low < 16,
        0 < width < 16,
    ensures
        r == with_field_u16(value, field, low, width),
{
    proof {
        lemma_u16_bit_update(0, width, 0);
    }
    let mask: u16 = (1u16 << width) - 1;
    (value & !(mask << low)) | ((field & mask) << low)
}

pub fn set_field_u32(value: u32, field: u32, low: u32, width: u32) -> (r: u32)
    requires
        low < 32,
        0 < width < 32,
    ensures
        r == with_field_u32(value, field, low, width),
{
    proof {
        lemma_u32_bit_update(0, width, 0);
    }
    let mask: u32 = (1u32 << width) - 1;
    (value & !(mask << low)) | ((field & mask) << low)
}

/// Setting a bit to `set` makes it read back as `set` and leaves the other bits.
pub proof fn lemma_with_bit_u32(value: u32, index: u32, set: bool)
    requires
        index < 32,
    ensures
        bit_of_u32(with_bit_u32(value, index, set), index) == set,
        forall|j: u32|
            j < 32 && j != index ==> bit_of_u32(with_bit_u32(value, index, set), j) == bit_of_u32(
                value,
                j,
            ),
{
    let v = value;
    let i = index;
    lemma_u32_bit_update(v, i, 0);
    assert forall|j: u32| j < 32 && j != index implies bit_of_u32(with_bit_u32(value, index, set), j)
        == bit_of_u32(value, j) by {
        lemma_u32_bit_update(v, i, j);
    }
}

/// Setting a bit to `set` makes it read back as `set` and leaves the other bits.
pub proof fn lemma_with_bit_u16(value: u16, index: u16, set: bool)
    requires
        index < 16,
    ensures
        bit_of_u16(with_bit_u16(value, index, set), index) == set,
        forall|j: u16|
            j < 16 && j != index ==> bit_of_u16(with_bit_u16(value, index, set), j) == bit_of_u16(
                value,
                j,
            ),
{
    let v = value;
    let i = index;
    lemma_u16_bit_update(v, i, 0);
    assert forall|j: u16| j < 16 && j != index implies bit_of_u16(with_bit_u16(value, index, set), j)
        == bit_of_u16(value, j) by {
        lemma_u16_bit_update(v, i, j);
    }
}


/// Bit facts for updating one bit of a word: the bit reads back as set or
/// cleared, and any other bit keeps its value.
proof fn lemma_u32_bit_update(v: u32, i: u32, j: u32)
    by (bit_vector)
    requires
        i < 32,
        j < 32,
    ensures
        ((v | (1u32 << i)) >> i) & 1u32 == 1u32,
        ((v & !(1u32 << i)) >> i) & 1u32 != 1u32,
        i != j ==> ((v | (1u32 << i)) >> j) & 1u32 == (v >> j) & 1u32,
        i != j ==> ((v & !(1u32 << i)) >> j) & 1u32 == (v >> j) & 1u32,
        1u32 << i >= 1u32,
{
}

/// Bit facts for updating one bit of a halfword.
proof fn lemma_u16_bit_update(v: u16, i: u16, j: u16)
    by (bit_vector)
    requires
        i < 16,
        j < 16,
    ensures
        ((v | (1u16 << i)) >> i) & 1u16 == 1u16,
        ((v & !(1u16 << i)) >> i) & 1u16 != 1u16,
        i != j ==> ((v | (1u16 << i)) >> j) & 1u16 == (v >> j) & 1u16,
        i != j ==> ((v & !(1u16 << i)) >> j) & 1u16 == (v >> j) & 1u16,
        1u16 << i >= 1u16,
{
}

/// Bounds of the register fields read out of a halfword.
pub proof fn lemma_u16_fields(v: u16)
    by (bit_vector)
    ensures
        v & 3u16 < 4,
        v & 7u16 < 8,
        v & 0x1Fu16 < 32,
        v & 0xFFu16 < 256,
        v & 0x1FFu16 < 512,
        v & 0x3FFu16 < 1024,
        v & 0x7FFu16 < 2048,
        (v >> 4u16) & 0xFu16 < 16,
        (v >> 5u16) & 3u16 < 4,
        (v >> 5u16) & 0x1Fu16 < 32,
        (v >> 6u16) & 3u16 < 4,
        (v >> 7u16) & 3u16 < 4,
        (v >> 9u16) & 0x1Fu16 < 32,
        (v >> 10u16) & 3u16 < 4,
        (v >> 10u16) & 0x1Fu16 < 32,
        (v >> 12u16) & 3u16 < 4,
        (v >> 13u16) & 3u16 < 4,
        v >> 12u16 < 16,
        v >> 12u16 <= 15,
        v & 3u16 <= 3,
        (v >> 6u16) & 3u16 <= 3,
{
}

/// The two nibbles of a byte.
pub proof fn lemma_u8_nibbles(t: u8)
    by (bit_vector)
    ensures
        t & 0xFu8 < 16,
        t >> 4u8 < 16,
        t & 0x0Fu8 <= 15,
        t >> 4u8 <= 15,
{
}

/// Facts about the low bits of an address and the address with them
/// cleared.
pub proof fn lemma_u32_address(a: u32)
    by (bit_vector)
    ensures
        a & 1u32 < 2,
        a & 3u32 < 4,
        (a & 2u32) >> 1u32 < 2,
        (a & 1u32) * 8 < 32,
        (a & 3u32) * 8 < 32,
        a & !1u32 <= a,
        (a & !1u32) & 1u32 == 0,
        a & !1u32 < 0xFFFF_FFFF,
        a & !3u32 <= a,
        (a & !3u32) & 3u32 == 0,
        a & !3u32 <= 0xFFFF_FFFC,
        a & !1u32 <= 0x3FFFu32 ==> a <= 0x3FFFu32,
        a & !3u32 <= 0x3FFFu32 ==> a <= 0x3FFFu32,
        a <= 0x3FFFu32 ==> (a & !3u32) + 3 <= 0x3FFFu32,
        a < 0x400 ==> a & !1u32 < 0x400,
        a & 1u32 != 0 ==> a >= 1,
        a & 1u32 == 0 ==> a < 0xFFFF_FFFF,
        a & 3u32 == 0 ==> a <= 0xFFFF_FFFC,
        a & 1u32 == 0 ==> a < u32::MAX,
        a & 3u32 == 0 ==> a <= u32::MAX - 3,
        a & 3u32 == 0 ==> a & !3u32 == a,
        a & 3u32 == 0 ==> a & 1u32 == 0 && ((a + 2) as u32) & 1u32 == 0,
        a & 3u32 == 0 && a < 0x400 ==> a + 2 < 0x400,
        a & 1u32 == 0 && a < 0x18000 ==> a + 1 < 0x18000,
        a & 3u32 == 0 && a < 0x18000 ==> a + 3 < 0x18000,
{
}

/// The offsets of an aligned address inside each mirrored memory region
/// stay aligned.
pub proof fn lemma_region_offsets(a: u32)
    by (bit_vector)
    ensures
        a & 1u32 == 0 ==> ((a - 0x0200_0000u32) as u32) % 0x40000 % 2 == 0,
        a & 1u32 == 0 ==> ((a - 0x0300_0000u32) as u32) % 0x8000 % 2 == 0,
        a & 1u32 == 0 ==> (((a - 0x0500_0000u32) as u32) % 0x400) & 1 == 0,
        a & 1u32 == 0 ==> (((a - 0x0700_0000u32) as u32) % 0x400) & 1 == 0,
        a & 1u32 == 0 ==> (((a - 0x0600_0000u32) as u32) % 0x20000) & 1 == 0 && ((((a - 0x0600_0000u32) as u32)
            % 0x20000 - 0x10000u32) as u32 % 0x8000 + 0x10000u32) as u32 & 1 == 0,
        a & 1u32 == 0 ==> ((a - 0x0800_0000u32) as u32) & 1 == 0 && ((a - 0x0A00_0000u32) as u32) & 1 == 0 && ((a
            - 0x0C00_0000u32) as u32) & 1 == 0,
        a & 3u32 == 0 ==> ((a - 0x0200_0000u32) as u32) % 0x40000 % 4 == 0,
        a & 3u32 == 0 ==> ((a - 0x0300_0000u32) as u32) % 0x8000 % 4 == 0,
        a & 3u32 == 0 ==> (((a - 0x0500_0000u32) as u32) % 0x400) & 3 == 0,
        a & 3u32 == 0 ==> (((a - 0x0700_0000u32) as u32) % 0x400) & 3 == 0,
        a & 3u32 == 0 ==> (((a - 0x0600_0000u32) as u32) % 0x20000) & 3 == 0 && ((((a - 0x0600_0000u32) as u32)
            % 0x20000 - 0x10000u32) as u32 % 0x8000 + 0x10000u32) as u32 & 3 == 0,
        a & 3u32 == 0 ==> ((a - 0x0800_0000u32) as u32) & 3 == 0 && ((a - 0x0A00_0000u32) as u32) & 3 == 0 && ((a
            - 0x0C00_0000u32) as u32) & 3 == 0,
{
}

/// Two different even offsets name different halfwords.
pub proof fn lemma_even_offsets_distinct(o: u32, offset: u32)
    by (bit_vector)
    ensures
        o & 1 == 0 && offset & 1 == 0 && o != offset ==> o / 2 != offset / 2,
{
}

/// Constant bit patterns.
pub proof fn lemma_bit_constants()
    by (bit_vector)
    ensures
        1u32 << 4u32 == 16,
        0u16 >> 14u16 == 0,
        (0b11111u32 >> 5u32) & 1u32 != 1u32,
        0b11111u32 & 0x1Fu32 == 0b11111u32,
        4u32 & !3u32 == 4u32,
        8u32 & !3u32 == 8u32,
        0x18u32 & !3u32 == 0x18u32,
        0xFFu32 << 0u32 == 0x0000_00FFu32,
        0xFFu32 << 8u32 == 0x0000_FF00u32,
        0xFFu32 << 16u32 == 0x00FF_0000u32,
        0xFFu32 << 24u32 == 0xFF00_0000u32,
{
}


/// No bit of a zero byte is set.
pub proof fn lemma_u8_zero_bits(i: u8)
    by (bit_vector)
    requires
        i < 8,
    ensures
        (0u8 >> i) & 1u8 != 1u8,
{
}

/// No bit of zero is set.
pub proof fn lemma_u16_zero_bits(i: u16)
    by (bit_vector)
    requires
        i < 16,
    ensures
        (0u16 >> i) & 1u16 != 1u16,
{
}

} // verus!
