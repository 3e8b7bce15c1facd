//! Integer helpers used throughout the processor model: logical shifts,
//! sign extension from an arbitrary bit, bit tests and leading-zero counts.

use vstd::prelude::*;

verus! {

/// Whether bit `b` of a 32-bit value is set.
pub open spec fn bit_of_32(x: i32, b: int) -> bool {
    x & (1i32 << (b as i32)) != 0
}

/// Whether bit `b` of a 64-bit value is set.
pub open spec fn bit_of_64(x: i64, b: int) -> bool {
    x & (1i64 << (b as i64)) != 0
}

/// Number of consecutive clear bits of `x`, from bit `b` downwards.
pub open spec fn leading_zeroes_32(x: i32, b: int) -> int
    decreases b + 1,
{
    if b < 0 || bit_of_32(x, b) {
        0
    } else {
        1 + leading_zeroes_32(x, b - 1)
    }
}

/// Number of consecutive clear bits of `x`, from bit `b` downwards.
pub open spec fn leading_zeroes_64(x: i64, b: int) -> int
    decreases b + 1,
{
    if b < 0 || bit_of_64(x, b) {
        0
    } else {
        1 + leading_zeroes_64(x, b - 1)
    }
}

/// `x` shifted right by `s` with zeros coming in at the top.
pub open spec fn logical_rshift_32(x: i32, s: i32) -> i32 {
    ((x as u32) >> (s as u32)) as i32
}

/// `x` shifted right by `s` with zeros coming in at the top.
pub open spec fn logical_rshift_64(x: i64, s: i32) -> i64 {
    ((x as u64) >> (s as u64)) as i64
}

/// The bits of `x` above bit `b`, all set.
pub open spec fn extension_32(b: i32) -> i32 {
    (0xFFFF_FFFEu32 as i32) << b
}

/// The bits of `x` above bit `b`, all set.
pub open spec fn extension_64(b: i32) -> i64 {
    (0xFFFF_FFFF_FFFF_FFFEu64 as i64) << (b as i64)
}

/// Bits `b..0` of `x`, read as a two's complement number of `b + 1` bits.
pub open spec fn sign_extend_32(x: i32, b: i32) -> i32 {
    if bit_of_32(x, b as int) {
        x | extension_32(b)
    } else {
        x & !extension_32(b)
    }
}

/// Bits `b..0` of `x`, read as a two's complement number of `b + 1` bits.
pub open spec fn sign_extend_64(x: i64, b: i32) -> i64 {
    if bit_of_64(x, b as int) {
        x | extension_64(b)
    } else {
        x & !extension_64(b)
    }
}

/// Bit operations on signed machine words that the processor model needs.
pub trait CustomInteger: Sized {
    /// Bit positions of the type: `0 <= b < width`.
    spec fn valid_bit(b: i32) -> bool;

    /// `self` shifted right by `shift_by` with zeros coming in at the top.
    spec fn logical_rshift_spec(self, shift_by: i32) -> Self;

    /// Bits `from_bit..0` of `self`, as a two's complement number.
    spec fn sign_extend_spec(self, from_bit: i32) -> Self;

    /// Whether bit `from_bit` of `self` is set.
    spec fn bit_spec(self, from_bit: i32) -> bool;

    /// Clear bits of `self` from bit `from_bit` downwards, up to the first set one.
    spec fn leading_zeroes_spec(self, from_bit: i32) -> int;

    /// Shifts right by `shift_by` without extending the sign.
    fn logical_rshift(self, shift_by: i32) -> (r: Self)
        requires
            Self::valid_bit(shift_by),
        ensures
            r == self.logical_rshift_spec(shift_by),
    ;

    /// Sign-extends from bit `from_bit`; when that bit is clear, the bits
    /// above it are cleared instead.
    fn sign_extend(self, from_bit: i32) -> (r: Self)
        requires
            Self::valid_bit(from_bit),
        ensures
            r == self.sign_extend_spec(from_bit),
    ;

    /// 1 when bit `from_bit` is set, 0 otherwise.
    fn bit_value(self, from_bit: i32) -> (r: i32)
        requires
            Self::valid_bit(from_bit),
        ensures
            r == (if self.bit_spec(from_bit) { 1i32 } else { 0i32 }),
    ;

    /// Counts the clear bits from bit `from_bit` downwards, up to the first set one.
    fn leading_zeroes(self, from_bit: i32) -> (r: i32)
        requires
            Self::valid_bit(from_bit),
        ensures
            r == self.leading_zeroes_spec(from_bit),
    ;

    /// Whether bit `from_bit` is set.
    fn bit_is_set(self, from_bit: i32) -> (r: bool)
        requires
            Self::valid_bit(from_bit),
        ensures
            r == self.bit_spec(from_bit),
    {
        self.bit_value(from_bit) == 1
    }
}

impl CustomInteger for i32 {
    open spec fn valid_bit(b: i32) -> bool {
        0 <= b < 32
    }

    open spec fn logical_rshift_spec(self, shift_by: i32) -> i32 {
        logical_rshift_32(self, shift_by)
    }

    open spec fn sign_extend_spec(self, from_bit: i32) -> i32 {
        sign_extend_32(self, from_bit)
    }

    open spec fn bit_spec(self, from_bit: i32) -> bool {
        bit_of_32(self, from_bit as int)
    }

    open spec fn leading_zeroes_spec(self, from_bit: i32) -> int {
        leading_zeroes_32(self, from_bit as int)
    }

    fn logical_rshift(self, shift_by: i32) -> (r: i32) {
        ((self as u32) >> (shift_by as u32)) as i32
    }

    fn sign_extend(self, from_bit: i32) -> (r: i32) {
        let bit_pattern_to_test = 1i32 << from_bit;
        let extension_pattern = (0xFFFF_FFFEu32 as i32) << from_bit;
        if self & bit_pattern_to_test == 0 {
            self & !extension_pattern
        } else {
            self | extension_pattern
        }
    }

    fn bit_value(self, from_bit: i32) -> (r: i32) {
        if self & (1i32 << from_bit) == 0 {
            0
        } else {
            1
        }
    }

    fn leading_zeroes(self, from_bit: i32) -> (r: i32) {
        let mut zero_count: i32 = 0;
        let mut bit: i32 = from_bit;
        while bit >= 0 && self & (1i32 << bit) == 0
            invariant
                -1 <= bit <= from_bit < 32,
                zero_count == from_bit - bit,
                leading_zeroes_32(self, from_bit as int) == zero_count + leading_zeroes_32(
                    self,
                    bit as int,
                ),
            decreases bit + 1,
        {
            zero_count = zero_count + 1;
            bit = bit - 1;
        }
        zero_count
    }
}

impl CustomInteger for i64 {
    open spec fn valid_bit(b: i32) -> bool {
        0 <= b < 64
    }

    open spec fn logical_rshift_spec(self, shift_by: i32) -> i64 {
        logical_rshift_64(self, shift_by)
    }

    open spec fn sign_extend_spec(self, from_bit: i32) -> i64 {
        sign_extend_64(self, from_bit)
    }

    open spec fn bit_spec(self, from_bit: i32) -> bool {
        bit_of_64(self, from_bit as int)
    }

    open spec fn leading_zeroes_spec(self, from_bit: i32) -> int {
        leading_zeroes_64(self, from_bit as int)
    }

    fn logical_rshift(self, shift_by: i32) -> (r: i64) {
        ((self as u64) >> (shift_by as u64)) as i64
    }

    fn sign_extend(self, from_bit: i32) -> (r: i64) {
        let bit_pattern_to_test = 1i64 << (from_bit as i64);
        let extension_pattern = (0xFFFF_FFFF_FFFF_FFFEu64 as i64) << (from_bit as i64);
        if self & bit_pattern_to_test == 0 {
            self & !extension_pattern
        } else {
            self | extension_pattern
        }
    }

    fn bit_value(self, from_bit: i32) -> (r: i32) {
        if self & (1i64 << (from_bit as i64)) == 0 {
            0
        } else {
            1
        }
    }

    fn leading_zeroes(self, from_bit: i32) -> (r: i32) {
        let mut zero_count: i32 = 0;
        let mut bit: i32 = from_bit;
        while bit >= 0 && self & (1i64 << (bit as i64)) == 0
            invariant
                -1 <= bit <= from_bit < 64,
                zero_count == from_bit - bit,
                leading_zeroes_64(self, from_bit as int) == zero_count + leading_zeroes_64(
                    self,
                    bit as int,
                ),
            decreases bit + 1,
        {
            zero_count = zero_count + 1;
            bit = bit - 1;
        }
        zero_count
    }
}

/// Which agent currently owns the shared system bus.
#[derive(Copy, Clone, PartialEq, Eq, Debug, Structural)]
pub enum SystemBusHolder {
    CPU,
    DMA,
}

/// The smaller of two integers.
pub fn min(a: i64, b: i64) -> (r: i64)
    ensures
        r == (if a <= b { a } else { b }),
{
    if a <= b {
        a
    } else {
        b
    }
}

} // verus!
