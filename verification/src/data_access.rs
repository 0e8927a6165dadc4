use vstd::prelude::*;

verus! {

/// Lane access into a wider register: reading or replacing the `index`-th
/// lane of width `T` (lane 0 is the least significant one).
pub trait DataAccess<T>: Sized {
    /// Number of lanes of width `T` that fit in `Self`.
    spec fn lanes() -> nat;

    /// `self` with lane `index` replaced by `value`.
    spec fn spec_set_data(self, value: T, index: u32) -> Self;

    /// Lane `index` of `self`.
    spec fn spec_get_data(self, index: u32) -> T;

    fn set_data(self, value: T, index: u32) -> (r: Self)
        requires
            index < Self::lanes(),
        ensures
            r == self.spec_set_data(value, index),
    ;

    fn get_data(self, index: u32) -> (r: T)
        requires
            index < Self::lanes(),
        ensures
            r == self.spec_get_data(index),
    ;

    /// Reading a lane gives back what was last written to it.
    proof fn lemma_get_set_same(self, value: T, index: u32)
        requires
            index < Self::lanes(),
        ensures
            self.spec_set_data(value, index).spec_get_data(index) == value,
    ;

    /// Writing one lane leaves every other lane unchanged.
    proof fn lemma_get_set_other(self, value: T, written: u32, read: u32)
        requires
            written < Self::lanes(),
            read < Self::lanes(),
            written != read,
        ensures
            self.spec_set_data(value, written).spec_get_data(read) == self.spec_get_data(read),
    ;

    /// Writing back the value a lane already holds changes nothing.
    proof fn lemma_set_own_value(self, index: u32)
        requires
            index < Self::lanes(),
        ensures
            self.spec_set_data(self.spec_get_data(index), index) == self,
    ;
}

impl<T> DataAccess<T> for T {
    open spec fn lanes() -> nat {
        1
    }

    open spec fn spec_set_data(self, value: T, index: u32) -> T {
        value
    }

    open spec fn spec_get_data(self, index: u32) -> T {
        self
    }

    fn set_data(self, value: T, index: u32) -> (r: T) {
        value
    }

    fn get_data(self, index: u32) -> (r: T) {
        self
    }

    proof fn lemma_get_set_same(self, value: T, index: u32) {
    }

    proof fn lemma_get_set_other(self, value: T, written: u32, read: u32) {
    }

    proof fn lemma_set_own_value(self, index: u32) {
    }
}

impl DataAccess<u8> for u16 {
    open spec fn lanes() -> nat {
        2
    }

    open spec fn spec_set_data(self, value: u8, index: u32) -> u16 {
        if index == 0 {
            (self & 0xFF00u16) | (value as u16)
        } else {
            (self & 0x00FFu16) | ((value as u16) << 8u16)
        }
    }

    open spec fn spec_get_data(self, index: u32) -> u8 {
        if index == 0 {
            (self & 0xFFu16) as u8
        } else {
            (self >> 8u16) as u8
        }
    }

    fn set_data(self, value: u8, index: u32) -> (r: u16) {
        if index == 0 {
            (self & 0xFF00u16) | (value as u16)
        } else {
            (self & 0x00FFu16) | ((value as u16) << 8u16)
        }
    }

    fn get_data(self, index: u32) -> (r: u8) {
        if index == 0 {
            (self & 0xFFu16) as u8
        } else {
            (self >> 8u16) as u8
        }
    }

    proof fn lemma_get_set_same(self, value: u8, index: u32) {
        let x = self;
        if index == 0 {
            assert((((x & 0xFF00u16) | (value as u16)) & 0xFFu16) as u8 == value) by {
                lemma_lanes_u16_u8(x, value);
            }
        } else {
            assert((((x & 0x00FFu16) | ((value as u16) << 8u16)) >> 8u16) as u8 == value) by {
                lemma_lanes_u16_u8(x, value);
            }
        }
    }

    proof fn lemma_get_set_other(self, value: u8, written: u32, read: u32) {
        let x = self;
        if written == 0 {
            assert((((x & 0xFF00u16) | (value as u16)) >> 8u16) as u8 == (x >> 8u16) as u8) by {
                lemma_lanes_u16_u8(x, value);
            }
        } else {
            assert((((x & 0x00FFu16) | ((value as u16) << 8u16)) & 0xFFu16) as u8 == (x
                & 0xFFu16) as u8) by {
                lemma_lanes_u16_u8(x, value);
            }
        }
    }

    proof fn lemma_set_own_value(self, index: u32) {
        let x = self;
        if index == 0 {
            assert((x & 0xFF00u16) | (((x & 0xFFu16) as u8) as u16) == x) by {
                lemma_lanes_u16_u8(x, 0);
            }
        } else {
            assert((x & 0x00FFu16) | ((((x >> 8u16) as u8) as u16) << 8u16) == x) by {
                lemma_lanes_u16_u8(x, 0);
            }
        }
    }
}

/// The mask that selects byte lane `index` of a 32-bit word.
pub open spec fn byte_lane_mask_u32(index: u32) -> u32 {
    if index == 0 {
        0x0000_00FFu32
    } else if index == 1 {
        0x0000_FF00u32
    } else if index == 2 {
        0x00FF_0000u32
    } else {
        0xFF00_0000u32
    }
}

impl DataAccess<u8> for u32 {
    open spec fn lanes() -> nat {
        4
    }

    open spec fn spec_set_data(self, value: u8, index: u32) -> u32 {
        (self & !byte_lane_mask_u32(index)) | ((value as u32) << ((8 * index) as u32))
    }

    open spec fn spec_get_data(self, index: u32) -> u8 {
        (self >> ((8 * index) as u32)) as u8
    }

    fn set_data(self, value: u8, index: u32) -> (r: u32) {
        let shift: u32 = 8 * index;
        let mask: u32 = 0xFFu32 << shift;
        let r = (self & !mask) | ((value as u32) << shift);
        proof {
            if index == 0 {
                assert(0xFFu32 << 0u32 == 0x0000_00FFu32) by {
                crate::bits::lemma_bit_constants();
            }
            } else if index == 1 {
                assert(0xFFu32 << 8u32 == 0x0000_FF00u32) by {
                crate::bits::lemma_bit_constants();
            }
            } else if index == 2 {
                assert(0xFFu32 << 16u32 == 0x00FF_0000u32) by {
                crate::bits::lemma_bit_constants();
            }
            } else {
                assert(0xFFu32 << 24u32 == 0xFF00_0000u32) by {
                crate::bits::lemma_bit_constants();
            }
            }
        }
        r
    }

    fn get_data(self, index: u32) -> (r: u8) {
        (self >> (8 * index)) as u8
    }

    proof fn lemma_get_set_same(self, value: u8, index: u32) {
        let x = self;
        let v = value;
        if index == 0 {
            assert((((x & !0x0000_00FFu32) | ((v as u32) << 0u32)) >> 0u32) as u8 == v) by {
                lemma_lanes_u32_u8(x, v);
            }
        } else if index == 1 {
            assert((((x & !0x0000_FF00u32) | ((v as u32) << 8u32)) >> 8u32) as u8 == v) by {
                lemma_lanes_u32_u8(x, v);
            }
        } else if index == 2 {
            assert((((x & !0x00FF_0000u32) | ((v as u32) << 16u32)) >> 16u32) as u8 == v) by {
                lemma_lanes_u32_u8(x, v);
            }
        } else {
            assert((((x & !0xFF00_0000u32) | ((v as u32) << 24u32)) >> 24u32) as u8 == v) by {
                lemma_lanes_u32_u8(x, v);
            }
        }
    }

    proof fn lemma_get_set_other(self, value: u8, written: u32, read: u32) {
        let x = self;
        let v = value;
        let m = byte_lane_mask_u32(written);
        let ws: u32 = (8 * written) as u32;
        let rs: u32 = (8 * read) as u32;
        assert(ws == 0 || ws == 8 || ws == 16 || ws == 24);
        assert(rs == 0 || rs == 8 || rs == 16 || rs == 24);
        assert(m == 0xFFu32 << ws) by {
            if written == 0 {
                assert(0xFFu32 << 0u32 == 0x0000_00FFu32) by {
                crate::bits::lemma_bit_constants();
            }
            } else if written == 1 {
                assert(0xFFu32 << 8u32 == 0x0000_FF00u32) by {
                crate::bits::lemma_bit_constants();
            }
            } else if written == 2 {
                assert(0xFFu32 << 16u32 == 0x00FF_0000u32) by {
                crate::bits::lemma_bit_constants();
            }
            } else {
                assert(0xFFu32 << 24u32 == 0xFF00_0000u32) by {
                crate::bits::lemma_bit_constants();
            }
            }
        }
        assert((((x & !m) | ((v as u32) << ws)) >> rs) as u8 == (x >> rs) as u8) by (bit_vector)
            requires
                m == 0xFFu32 << ws,
                ws == 0 || ws == 8 || ws == 16 || ws == 24,
                rs == 0 || rs == 8 || rs == 16 || rs == 24,
                ws != rs,
        ;
    }

    proof fn lemma_set_own_value(self, index: u32) {
        let x = self;
        if index == 0 {
            assert((x & !0x0000_00FFu32) | ((((x >> 0u32) as u8) as u32) << 0u32) == x) by {
                lemma_lanes_u32_u8(x, 0);
            }
        } else if index == 1 {
            assert((x & !0x0000_FF00u32) | ((((x >> 8u32) as u8) as u32) << 8u32) == x) by {
                lemma_lanes_u32_u8(x, 0);
            }
        } else if index == 2 {
            assert((x & !0x00FF_0000u32) | ((((x >> 16u32) as u8) as u32) << 16u32) == x) by {
                lemma_lanes_u32_u8(x, 0);
            }
        } else {
            assert((x & !0xFF00_0000u32) | ((((x >> 24u32) as u8) as u32) << 24u32) == x) by {
                lemma_lanes_u32_u8(x, 0);
            }
        }
    }
}

impl DataAccess<u16> for u32 {
    open spec fn lanes() -> nat {
        2
    }

    open spec fn spec_set_data(self, value: u16, index: u32) -> u32 {
        if index == 0 {
            (self & 0xFFFF_0000u32) | (value as u32)
        } else {
            (self & 0x0000_FFFFu32) | ((value as u32) << 16u32)
        }
    }

    open spec fn spec_get_data(self, index: u32) -> u16 {
        if index == 0 {
            (self & 0xFFFFu32) as u16
        } else {
            (self >> 16u32) as u16
        }
    }

    fn set_data(self, value: u16, index: u32) -> (r: u32) {
        if index == 0 {
            (self & 0xFFFF_0000u32) | (value as u32)
        } else {
            (self & 0x0000_FFFFu32) | ((value as u32) << 16u32)
        }
    }

    fn get_data(self, index: u32) -> (r: u16) {
        if index == 0 {
            (self & 0xFFFFu32) as u16
        } else {
            (self >> 16u32) as u16
        }
    }

    proof fn lemma_get_set_same(self, value: u16, index: u32) {
        let x = self;
        if index == 0 {
            assert((((x & 0xFFFF_0000u32) | (value as u32)) & 0xFFFFu32) as u16 == value) by {
                lemma_lanes_u32_u16(x, value);
            }
        } else {
            assert((((x & 0x0000_FFFFu32) | ((value as u32) << 16u32)) >> 16u32) as u16 == value) by {
                lemma_lanes_u32_u16(x, value);
            }
        }
    }

    proof fn lemma_get_set_other(self, value: u16, written: u32, read: u32) {
        let x = self;
        if written == 0 {
            assert((((x & 0xFFFF_0000u32) | (value as u32)) >> 16u32) as u16 == (x
                >> 16u32) as u16) by {
                lemma_lanes_u32_u16(x, value);
            }
        } else {
            assert((((x & 0x0000_FFFFu32) | ((value as u32) << 16u32)) & 0xFFFFu32) as u16 == (x
                & 0xFFFFu32) as u16) by {
                lemma_lanes_u32_u16(x, value);
            }
        }
    }

    proof fn lemma_set_own_value(self, index: u32) {
        let x = self;
        if index == 0 {
            assert((x & 0xFFFF_0000u32) | (((x & 0xFFFFu32) as u16) as u32) == x) by {
                lemma_lanes_u32_u16(x, 0);
            }
        } else {
            assert((x & 0x0000_FFFFu32) | ((((x >> 16u32) as u16) as u32) << 16u32) == x) by {
                lemma_lanes_u32_u16(x, 0);
            }
        }
    }
}

impl DataAccess<u32> for u64 {
    open spec fn lanes() -> nat {
        2
    }

    open spec fn spec_set_data(self, value: u32, index: u32) -> u64 {
        if index == 0 {
            (self & 0xFFFF_FFFF_0000_0000u64) | (value as u64)
        } else {
            (self & 0x0000_0000_FFFF_FFFFu64) | ((value as u64) << 32u64)
        }
    }

    open spec fn spec_get_data(self, index: u32) -> u32 {
        if index == 0 {
            (self & 0xFFFF_FFFFu64) as u32
        } else {
            (self >> 32u64) as u32
        }
    }

    fn set_data(self, value: u32, index: u32) -> (r: u64) {
        if index == 0 {
            (self & 0xFFFF_FFFF_0000_0000u64) | (value as u64)
        } else {
            (self & 0x0000_0000_FFFF_FFFFu64) | ((value as u64) << 32u64)
        }
    }

    fn get_data(self, index: u32) -> (r: u32) {
        if index == 0 {
            (self & 0xFFFF_FFFFu64) as u32
        } else {
            (self >> 32u64) as u32
        }
    }

    proof fn lemma_get_set_same(self, value: u32, index: u32) {
        let x = self;
        if index == 0 {
            assert((((x & 0xFFFF_FFFF_0000_0000u64) | (value as u64)) & 0xFFFF_FFFFu64) as u32
                == value) by {
                lemma_lanes_u64_u32(x, value);
            }
        } else {
            assert((((x & 0x0000_0000_FFFF_FFFFu64) | ((value as u64) << 32u64)) >> 32u64) as u32
                == value) by {
                lemma_lanes_u64_u32(x, value);
            }
        }
    }

    proof fn lemma_get_set_other(self, value: u32, written: u32, read: u32) {
        let x = self;
        if written == 0 {
            assert((((x & 0xFFFF_FFFF_0000_0000u64) | (value as u64)) >> 32u64) as u32 == (x
                >> 32u64) as u32) by {
                lemma_lanes_u64_u32(x, value);
            }
        } else {
            assert((((x & 0x0000_0000_FFFF_FFFFu64) | ((value as u64) << 32u64))
                & 0xFFFF_FFFFu64) as u32 == (x & 0xFFFF_FFFFu64) as u32) by {
                lemma_lanes_u64_u32(x, value);
            }
        }
    }

    proof fn lemma_set_own_value(self, index: u32) {
        let x = self;
        if index == 0 {
            assert((x & 0xFFFF_FFFF_0000_0000u64) | (((x & 0xFFFF_FFFFu64) as u32) as u64) == x) by {
                lemma_lanes_u64_u32(x, 0);
            }
        } else {
            assert((x & 0x0000_0000_FFFF_FFFFu64) | ((((x >> 32u64) as u32) as u64) << 32u64)
                == x) by {
                lemma_lanes_u64_u32(x, 0);
            }
        }
    }
}


/// Lane facts: a lane written reads back, the other lanes keep their
/// values, and writing a lane's own value changes nothing.
proof fn lemma_lanes_u16_u8(x: u16, v: u8)
    by (bit_vector)
    ensures
        (((x & 0xFF00u16) | (v as u16)) & 0xFFu16) as u8 == v,
        (((x & 0x00FFu16) | ((v as u16) << 8u16)) >> 8u16) as u8 == v,
        (((x & 0xFF00u16) | (v as u16)) >> 8u16) as u8 == (x >> 8u16) as u8,
        (((x & 0x00FFu16) | ((v as u16) << 8u16)) & 0xFFu16) as u8 == (x & 0xFFu16) as u8,
        (x & 0xFF00u16) | (((x & 0xFFu16) as u8) as u16) == x,
        (x & 0x00FFu16) | ((((x >> 8u16) as u8) as u16) << 8u16) == x,
{
}

/// Lane facts: a lane written reads back, the other lanes keep their
/// values, and writing a lane's own value changes nothing.
proof fn lemma_lanes_u32_u8(x: u32, v: u8)
    by (bit_vector)
    ensures
        (((x & !0x0000_00FFu32) | ((v as u32) << 0u32)) >> 0u32) as u8 == v,
        (((x & !0x0000_FF00u32) | ((v as u32) << 8u32)) >> 8u32) as u8 == v,
        (((x & !0x00FF_0000u32) | ((v as u32) << 16u32)) >> 16u32) as u8 == v,
        (((x & !0xFF00_0000u32) | ((v as u32) << 24u32)) >> 24u32) as u8 == v,
        (x & !0x0000_00FFu32) | ((((x >> 0u32) as u8) as u32) << 0u32) == x,
        (x & !0x0000_FF00u32) | ((((x >> 8u32) as u8) as u32) << 8u32) == x,
        (x & !0x00FF_0000u32) | ((((x >> 16u32) as u8) as u32) << 16u32) == x,
        (x & !0xFF00_0000u32) | ((((x >> 24u32) as u8) as u32) << 24u32) == x,
{
}

/// Lane facts: a lane written reads back, the other lanes keep their
/// values, and writing a lane's own value changes nothing.
proof fn lemma_lanes_u32_u16(x: u32, v: u16)
    by (bit_vector)
    ensures
        (((x & 0xFFFF_0000u32) | (v as u32)) & 0xFFFFu32) as u16 == v,
        (((x & 0x0000_FFFFu32) | ((v as u32) << 16u32)) >> 16u32) as u16 == v,
        (((x & 0xFFFF_0000u32) | (v as u32)) >> 16u32) as u16 == (x >> 16u32) as u16,
        (((x & 0x0000_FFFFu32) | ((v as u32) << 16u32)) & 0xFFFFu32) as u16 == (x & 0xFFFFu32) as u16,
        (x & 0xFFFF_0000u32) | (((x & 0xFFFFu32) as u16) as u32) == x,
        (x & 0x0000_FFFFu32) | ((((x >> 16u32) as u16) as u32) << 16u32) == x,
{
}

/// Lane facts: a lane written reads back, the other lanes keep their
/// values, and writing a lane's own value changes nothing.
proof fn lemma_lanes_u64_u32(x: u64, v: u32)
    by (bit_vector)
    ensures
        (((x & 0xFFFF_FFFF_0000_0000u64) | (v as u64)) & 0xFFFF_FFFFu64) as u32 == v,
        (((x & 0x0000_0000_FFFF_FFFFu64) | ((v as u64) << 32u64)) >> 32u64) as u32 == v,
        (((x & 0xFFFF_FFFF_0000_0000u64) | (v as u64)) >> 32u64) as u32 == (x >> 32u64) as u32,
        (((x & 0x0000_0000_FFFF_FFFFu64) | ((v as u64) << 32u64)) & 0xFFFF_FFFFu64) as u32 == (x & 0xFFFF_FFFFu64) as u32,
        (x & 0xFFFF_FFFF_0000_0000u64) | (((x & 0xFFFF_FFFFu64) as u32) as u64) == x,
        (x & 0x0000_0000_FFFF_FFFFu64) | ((((x >> 32u64) as u32) as u64) << 32u64) == x,
{
}

} // verus!
