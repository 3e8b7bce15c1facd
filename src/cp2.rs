//! The Geometry Transformation Engine (CP2): its register files and the
//! fixed-point vector operations that it executes.

use vstd::prelude::*;
use crate::utility::{CustomInteger, sign_extend_32, sign_extend_64, logical_rshift_32, leading_zeroes_32, min};
use crate::math::{CP2Matrix, CP2Vector, within};

verus! {

/// Seeds of the unsigned Newton-Raphson reciprocal that RTPS and RTPT use,
/// indexed by the normalised divisor.
pub const UNR_RESULTS: [u8; 257] = [
    0xFF, 0xFD, 0xFB, 0xF9, 0xF7, 0xF5, 0xF3, 0xF1, 0xEF, 0xEE, 0xEC, 0xEA,
    0xE8, 0xE6, 0xE4, 0xE3, 0xE1, 0xDF, 0xDD, 0xDC, 0xDA, 0xD8, 0xD6, 0xD5,
    0xD3, 0xD1, 0xD0, 0xCE, 0xCD, 0xCB, 0xC9, 0xC8, 0xC6, 0xC5, 0xC3, 0xC1,
    0xC0, 0xBE, 0xBD, 0xBB, 0xBA, 0xB8, 0xB7, 0xB5, 0xB4, 0xB2, 0xB1, 0xB0,
    0xAE, 0xAD, 0xAB, 0xAA, 0xA9, 0xA7, 0xA6, 0xA4, 0xA3, 0xA2, 0xA0, 0x9F,
    0x9E, 0x9C, 0x9B, 0x9A, 0x99, 0x97, 0x96, 0x95, 0x94, 0x92, 0x91, 0x90,
    0x8F, 0x8D, 0x8C, 0x8B, 0x8A, 0x89, 0x87, 0x86, 0x85, 0x84, 0x83, 0x82,
    0x81, 0x7F, 0x7E, 0x7D, 0x7C, 0x7B, 0x7A, 0x79, 0x78, 0x77, 0x75, 0x74,
    0x73, 0x72, 0x71, 0x70, 0x6F, 0x6E, 0x6D, 0x6C, 0x6B, 0x6A, 0x69, 0x68,
    0x67, 0x66, 0x65, 0x64, 0x63, 0x62, 0x61, 0x60, 0x5F, 0x5E, 0x5D, 0x5D,
    0x5C, 0x5B, 0x5A, 0x59, 0x58, 0x57, 0x56, 0x55, 0x54, 0x53, 0x53, 0x52,
    0x51, 0x50, 0x4F, 0x4E, 0x4D, 0x4D, 0x4C, 0x4B, 0x4A, 0x49, 0x48, 0x48,
    0x47, 0x46, 0x45, 0x44, 0x43, 0x43, 0x42, 0x41, 0x40, 0x3F, 0x3F, 0x3E,
    0x3D, 0x3C, 0x3C, 0x3B, 0x3A, 0x39, 0x39, 0x38, 0x37, 0x36, 0x36, 0x35,
    0x34, 0x33, 0x33, 0x32, 0x31, 0x31, 0x30, 0x2F, 0x2E, 0x2E, 0x2D, 0x2C,
    0x2C, 0x2B, 0x2A, 0x2A, 0x29, 0x28, 0x28, 0x27, 0x26, 0x26, 0x25, 0x24,
    0x24, 0x23, 0x22, 0x22, 0x21, 0x20, 0x20, 0x1F, 0x1E, 0x1E, 0x1D, 0x1D,
    0x1C, 0x1B, 0x1B, 0x1A, 0x19, 0x19, 0x18, 0x18, 0x17, 0x16, 0x16, 0x15,
    0x15, 0x14, 0x14, 0x13, 0x12, 0x12, 0x11, 0x11, 0x10, 0x0F, 0x0F, 0x0E,
    0x0E, 0x0D, 0x0D, 0x0C, 0x0C, 0x0B, 0x0A, 0x0A, 0x09, 0x09, 0x08, 0x08,
    0x07, 0x07, 0x06, 0x06, 0x05, 0x05, 0x04, 0x04, 0x03, 0x03, 0x02, 0x02,
    0x01, 0x01, 0x00, 0x00, 0x00
];


/// Whether reading control register `reg` sign-extends its low half word.
pub open spec fn control_sign_extends(reg: int) -> bool {
    reg == 4 || reg == 12 || reg == 20 || (26 <= reg <= 30)
}

/// The value that reading control register `reg` gives.
pub open spec fn control_read_value(regs: Seq<i32>, reg: int) -> i32 {
    if control_sign_extends(reg) {
        sign_extend_32(regs[reg], 15)
    } else {
        regs[reg]
    }
}

/// One five-bit component of the packed colour view: IR / 0x80, clamped to 0..=0x1F.
pub open spec fn colour_component(ir: i32) -> i32 {
    let v = sign_extend_32(ir, 15) >> 7;
    if v < 0 {
        0
    } else if v > 0x1F {
        0x1F
    } else {
        v
    }
}

/// The packed 15-bit colour view of IR1, IR2 and IR3.
pub open spec fn packed_colour(regs: Seq<i32>) -> i32 {
    colour_component(regs[9]) | (colour_component(regs[10]) << 5) | (colour_component(regs[11]) << 10)
}

/// How many of the top bits of `x` equal its bit 31.
pub open spec fn leading_run(x: i32) -> int {
    if x < 0 {
        leading_zeroes_32(!x, 31)
    } else {
        leading_zeroes_32(x, 31)
    }
}

/// The value that reading data register `reg` gives.
pub open spec fn data_read_value(regs: Seq<i32>, reg: int) -> i32 {
    if reg == 1 || reg == 3 || reg == 5 || reg == 8 || reg == 9 || reg == 10 || reg == 11 {
        sign_extend_32(regs[reg], 15)
    } else if reg == 23 {
        0
    } else if reg == 28 || reg == 29 {
        packed_colour(regs)
    } else if reg == 31 {
        leading_run(regs[30]) as i32
    } else {
        regs[reg]
    }
}

/// The data registers after writing `value` to register `reg`.
pub open spec fn data_written(regs: Seq<i32>, reg: int, value: i32, write_override: bool) -> Seq<i32> {
    if write_override {
        regs.update(reg, value)
    } else if reg == 7 || reg == 23 || reg == 29 || reg == 31 {
        regs
    } else if reg == 14 {
        regs.update(14, value).update(15, value)
    } else if reg == 15 {
        regs.update(12, regs[13]).update(13, regs[14]).update(14, value).update(15, value)
    } else if reg == 28 {
        regs.update(9, (0x1F & value) << 7).update(10, (0x3E0 & value) << 2).update(
            11,
            logical_rshift_32(0x7C00 & value, 3),
        )
    } else {
        regs.update(reg, value)
    }
}

/// Fields of the flag register that flag a result without clamping it.
#[derive(Copy, Clone, PartialEq, Eq, Debug, Structural)]
pub enum UnsaturatedFlagRegisterField {
    MAC0,
    MAC1,
    MAC2,
    MAC3,
}

/// Fields of the flag register that flag a result and clamp it.
#[derive(Copy, Clone, PartialEq, Eq, Debug, Structural)]
pub enum SaturatedFlagRegisterField {
    IR0,
    IR1,
    IR2,
    IR3,
    IR3Quirk,
    ColourFifoR,
    ColourFifoG,
    ColourFifoB,
    SX2,
    SY2,
    SZ3,
}

/// Whether an operation runs once or over the three vectors.
#[derive(Copy, Clone, PartialEq, Eq, Debug, Structural)]
pub enum InstructionVariant {
    Single,
    Triple,
}

/// The range that an unclamped result is checked against: 31 bits for MAC0,
/// 43 bits for MAC1 to MAC3.
pub open spec fn unsaturated_range(f: UnsaturatedFlagRegisterField) -> (i64, i64) {
    match f {
        UnsaturatedFlagRegisterField::MAC0 => (-0x8000_0000i64, 0x7FFF_FFFFi64),
        _ => (-0x800_0000_0000i64, 0x7FF_FFFF_FFFFi64),
    }
}

/// The flag bits for a result below and above the range of `f`.
pub open spec fn unsaturated_bits(f: UnsaturatedFlagRegisterField) -> (i32, i32) {
    match f {
        UnsaturatedFlagRegisterField::MAC0 => (0x8000i32, 0x1_0000i32),
        UnsaturatedFlagRegisterField::MAC1 => (0x800_0000i32, 0x4000_0000i32),
        UnsaturatedFlagRegisterField::MAC2 => (0x400_0000i32, 0x2000_0000i32),
        UnsaturatedFlagRegisterField::MAC3 => (0x200_0000i32, 0x1000_0000i32),
    }
}

/// The flag bit that checking `result` against the range of `f` sets.
pub open spec fn unsaturated_flag(result: i64, f: UnsaturatedFlagRegisterField) -> i32 {
    if result < unsaturated_range(f).0 {
        unsaturated_bits(f).0
    } else if result > unsaturated_range(f).1 {
        unsaturated_bits(f).1
    } else {
        0
    }
}

/// The lower clamp bound of `f`; `lm` raises it to 0 for IR1 to IR3.
pub open spec fn saturated_lower(f: SaturatedFlagRegisterField, lm: bool) -> i64 {
    match f {
        SaturatedFlagRegisterField::IR0 => 0i64,
        SaturatedFlagRegisterField::IR1 | SaturatedFlagRegisterField::IR2
        | SaturatedFlagRegisterField::IR3 => if lm {
            0i64
        } else {
            -0x8000i64
        },
        SaturatedFlagRegisterField::IR3Quirk => -0x8000i64,
        SaturatedFlagRegisterField::SX2 | SaturatedFlagRegisterField::SY2 => -0x400i64,
        _ => 0i64,
    }
}

/// The upper clamp bound of `f`.
pub open spec fn saturated_upper(f: SaturatedFlagRegisterField) -> i64 {
    match f {
        SaturatedFlagRegisterField::IR0 => 0x1000i64,
        SaturatedFlagRegisterField::ColourFifoR | SaturatedFlagRegisterField::ColourFifoG
        | SaturatedFlagRegisterField::ColourFifoB => 0xFFi64,
        SaturatedFlagRegisterField::SX2 | SaturatedFlagRegisterField::SY2 => 0x3FFi64,
        SaturatedFlagRegisterField::SZ3 => 0xFFFFi64,
        _ => 0x7FFFi64,
    }
}

/// The flag bit of `f`.
pub open spec fn saturated_bit(f: SaturatedFlagRegisterField) -> i32 {
    match f {
        SaturatedFlagRegisterField::IR0 => 0x1000,
        SaturatedFlagRegisterField::IR1 => 0x100_0000,
        SaturatedFlagRegisterField::IR2 => 0x80_0000,
        SaturatedFlagRegisterField::IR3 | SaturatedFlagRegisterField::IR3Quirk => 0x40_0000,
        SaturatedFlagRegisterField::ColourFifoR => 0x20_0000,
        SaturatedFlagRegisterField::ColourFifoG => 0x10_0000,
        SaturatedFlagRegisterField::ColourFifoB => 0x8_0000,
        SaturatedFlagRegisterField::SX2 => 0x4000,
        SaturatedFlagRegisterField::SY2 => 0x2000,
        SaturatedFlagRegisterField::SZ3 => 0x4_0000,
    }
}

/// `v` clamped to `lo..=hi`.
pub open spec fn clamp(v: i64, lo: i64, hi: i64) -> i64 {
    if v < lo {
        lo
    } else if v > hi {
        hi
    } else {
        v
    }
}

/// The flag bit that clamping `result` for `f` sets. For the IR3 write of
/// RTPS and RTPT with `sf == 0`, the bit goes by `result >> 12` instead,
/// checked against `-0x8000..0x7FFF`, as the hardware does.
pub open spec fn saturated_flag(result: i64, f: SaturatedFlagRegisterField, lm: bool, sf: i32) -> i32 {
    if saturated_lower(f, lm) <= result <= saturated_upper(f) {
        0
    } else if f == SaturatedFlagRegisterField::IR3Quirk && sf == 0 && -0x8000 <= (result >> 12)
        < 0x7FFF {
        0
    } else {
        saturated_bit(f)
    }
}

/// The flag register with bit 31 summarising its error bits.
pub open spec fn summarised(flag: i32) -> i32 {
    if flag & 0x7F87_E000 != 0 {
        flag | (0x8000_0000u32 as i32)
    } else {
        flag
    }
}

/// A signed 16-bit lane: the low half of `x`, sign-extended.
pub open spec fn low_lane_of(x: i32) -> i64 {
    sign_extend_64((x & 0xFFFF) as i64, 15)
}

/// A signed 16-bit lane: the high half of `x`, sign-extended.
pub open spec fn high_lane_of(x: i32) -> i64 {
    sign_extend_64((logical_rshift_32(x, 16) & 0xFFFF) as i64, 15)
}

/// The low half of `x` as a signed 16-bit value.
fn low_lane(x: i32) -> (r: i64)
    ensures
        r == low_lane_of(x),
        -0x8000 <= r < 0x8000,
{
    let v = (x & 0xFFFF) as i64;
    assert(0 <= x & 0xFFFF <= 0xFFFF) by (bit_vector);
    proof {
        lemma_lane_bounds(v);
    }
    v.sign_extend(15)
}

/// The high half of `x` as a signed 16-bit value.
fn high_lane(x: i32) -> (r: i64)
    ensures
        r == high_lane_of(x),
        -0x8000 <= r < 0x8000,
{
    let h = x.logical_rshift(16);
    assert(0 <= h & 0xFFFF <= 0xFFFF) by (bit_vector);
    let v = (h & 0xFFFF) as i64;
    proof {
        lemma_lane_bounds(v);
    }
    v.sign_extend(15)
}

/// A 32-bit value sign-extended from bit 31 fits in 32 bits.
proof fn lemma_sign_extend_31(v: i64)
    requires
        0 <= v <= 0xFFFF_FFFF,
    ensures
        -0x8000_0000 <= sign_extend_64(v, 31) < 0x8000_0000,
{
    assert(0 <= v <= 0xFFFF_FFFF ==> -0x8000_0000 <= (if v & (1i64 << 31i64) != 0 {
        v | ((0xFFFF_FFFF_FFFF_FFFEu64 as i64) << 31i64)
    } else {
        v & !((0xFFFF_FFFF_FFFF_FFFEu64 as i64) << 31i64)
    }) < 0x8000_0000) by (bit_vector);
}

/// The dividend and divisor of the reciprocal step, doubled together until
/// the divisor has bit 15 set.
pub open spec fn normalised(n: int, d: int) -> (int, int)
    decreases 0x1_0000 - d,
{
    if 1 <= d < 0x8000 {
        normalised(2 * n, 2 * d)
    } else {
        (n, d)
    }
}

/// The quotient of the perspective division, `h / sz3` scaled by 0x10000:
/// one unsigned Newton-Raphson iteration seeded from the table, capped at
/// 0x1FFFF.
pub open spec fn unr_quotient(h: int, sz3: int) -> int {
    let (n, d) = normalised(h, sz3);
    let u = UNR_RESULTS@[(d - 0x7FC0) / 128] as int + 0x101;
    let d1 = (0x200_0080 - d * u) / 256;
    let d2 = (0x80 + d1 * u) / 256;
    let q = (n * d2 + 0x8000) / 0x1_0000;
    if q < 0x1_FFFF {
        q
    } else {
        0x1_FFFF
    }
}

/// The reciprocal step of the perspective division: `h / sz3` scaled by
/// 0x10000, by one unsigned Newton-Raphson iteration seeded from the table,
/// as the hardware computes it, capped at 0x1FFFF.
fn unr_divide(h: i64, sz3: i64) -> (r: i64)
    requires
        0 <= h <= 0xFFFF,
        0 <= sz3 <= 0xFFFF,
        h < sz3 * 2,
    ensures
        0 <= r <= 0x1_FFFF,
        r == unr_quotient(h as int, sz3 as int),
{
    let mut n = h;
    let mut d = sz3;
    while d < 0x8000
        invariant
            1 <= d <= 0xFFFF,
            0 <= n < 2 * d,
            normalised(n as int, d as int) == normalised(h as int, sz3 as int),
        decreases 0x1_0000 - d,
    {
        n = n * 2;
        d = d * 2;
    }
    let index = ((d - 0x7FC0) / 128) as usize;
    let u = UNR_RESULTS[index] as i64 + 0x101;
    proof {
        assert(d * u <= 0xFFFF * 0x200) by (nonlinear_arith)
            requires d <= 0xFFFF, 0 <= u <= 0x200, 0 <= d;
    }
    let d1 = (0x200_0080 - d * u) / 256;
    proof {
        assert(d1 * u <= 0x2_0001 * 0x200) by (nonlinear_arith)
            requires 0 <= d1 <= 0x2_0001, 0 <= u <= 0x200;
    }
    let d2 = (0x80 + d1 * u) / 256;
    proof {
        assert(n * d2 <= 0x2_0000 * 0x4_0002) by (nonlinear_arith)
            requires 0 <= n <= 0x2_0000, 0 <= d2 <= 0x4_0002;
        assert(0 <= n * d2) by (nonlinear_arith)
            requires 0 <= n, 0 <= d2;
    }
    min(0x1_FFFF, (n * d2 + 0x8000) / 0x1_0000)
}

/// A 16-bit value sign-extended from bit 15 lies in `-0x8000..0x8000`.
proof fn lemma_lane_bounds(v: i64)
    requires
        0 <= v <= 0xFFFF,
    ensures
        -0x8000 <= sign_extend_64(v, 15) < 0x8000,
{
    assert(0 <= v <= 0xFFFF ==> -0x8000 <= (if v & (1i64 << 15i64) != 0 {
        v | ((0xFFFF_FFFF_FFFF_FFFEu64 as i64) << 15i64)
    } else {
        v & !((0xFFFF_FFFF_FFFF_FFFEu64 as i64) << 15i64)
    }) < 0x8000) by (bit_vector);
}

/// `a * b` for a 17-bit and a 33-bit operand.
fn times(a: i64, b: i64) -> (r: i64)
    requires
        within(a, 0x1_0000),
        within(b, 0x1_0000_0000),
    ensures
        r == a * b,
        within(r, 0x1_0000_0000_0000),
{
    assert(-0x1_0000_0000_0000 <= a * b <= 0x1_0000_0000_0000) by (nonlinear_arith)
        requires
            within(a, 0x1_0000),
            within(b, 0x1_0000_0000),
    ;
    a * b
}

/// `x / d` rounded towards zero, for a positive `d`.
fn truncating_div(x: i64, d: i64) -> (r: i64)
    requires
        d > 0,
        x > i64::MIN,
    ensures
        r == (if x < 0 {
            -((-x) as int / d as int)
        } else {
            x as int / d as int
        }),
{
    if x < 0 {
        -((-x) / d)
    } else {
        x / d
    }
}

/// `x >> 12` when `sf` is 1, `x` when it is 0, extending the sign.
fn shift_sf(x: i64, sf: i32) -> (r: i64)
    requires
        sf == 0 || sf == 1,
    ensures
        r == x >> ((sf * 12) as u64),
        x >= 0 ==> 0 <= r <= x,
        x < 0 ==> x <= r <= 0,
{
    let k = (sf * 12) as u64;
    assert((k == 0 || k == 12) ==> (x >= 0 ==> 0 <= x >> k <= x) && (x < 0 ==> x <= x >> k <= 0))
        by (bit_vector);
    x >> k
}

/// One five-bit component of the packed colour view of an IR register.
fn colour_of(ir: i32) -> (r: i32)
    ensures
        r == colour_component(ir),
        0 <= r <= 0x1F,
{
    let v = ir.sign_extend(15) >> 7;
    if v < 0 {
        0
    } else if v > 0x1F {
        0x1F
    } else {
        v
    }
}

/// An accumulator as its 32-bit MAC register holds it. IR1 to IR3, the
/// colour FIFO, the screen coordinates and the depths are saturated from
/// this register value, not from the wider sum: the captured hardware
/// results of RTPS, MVMVA and NCDT (IR1 = -0x8000 from a positive 44-bit
/// sum whose low 32 bits are negative) require it.
fn as_register(x: i64) -> (r: i64)
    ensures
        r == (x as i32) as i64,
        within(r, 0x8000_0000),
{
    (x as i32) as i64
}

/// The Geometry Transformation Engine.
pub struct CP2 {
    /// Control registers, indexed by register number.
    pub control_registers: [i32; 32],
    /// Data registers, indexed by register number.
    pub data_registers: [i32; 32],
    /// Condition line, as seen by BC2F and BC2T.
    pub condition_line: bool,
}

impl CP2 {
    /// The control registers as a sequence.
    pub open spec fn control(&self) -> Seq<i32> {
        self.control_registers@
    }

    /// The data registers as a sequence.
    pub open spec fn data(&self) -> Seq<i32> {
        self.data_registers@
    }

    /// An engine with every register zero.
    pub fn new() -> (r: Self)
        ensures
            r.control() == Seq::new(32, |i: int| 0i32),
            r.data() == Seq::new(32, |i: int| 0i32),
            !r.condition_line,
    {
        let r = CP2 { control_registers: [0i32; 32], data_registers: [0i32; 32], condition_line: false };
        assert(r.control() =~= Seq::new(32, |i: int| 0i32));
        assert(r.data() =~= Seq::new(32, |i: int| 0i32));
        r
    }

    /// Lowers the condition line.
    pub fn reset(&mut self)
        ensures
            !final(self).condition_line,
            final(self).control_registers == old(self).control_registers,
            final(self).data_registers == old(self).data_registers,
    {
        self.condition_line = false;
    }

    /// The condition line.
    pub fn get_condition_line_status(&self) -> (r: bool)
        ensures
            r == self.condition_line,
    {
        self.condition_line
    }

    /// Sets the condition line.
    pub fn set_condition_line_status(&mut self, status: bool)
        ensures
            final(self).condition_line == status,
            final(self).control_registers == old(self).control_registers,
            final(self).data_registers == old(self).data_registers,
    {
        self.condition_line = status;
    }

    /// Reads control register `reg`; registers 4, 12, 20 and 26 to 30 read
    /// sign-extended from bit 15 (for 26, a hardware quirk kept on purpose).
    pub fn read_control_reg(&self, reg: i32) -> (r: i32)
        requires
            0 <= reg < 32,
        ensures
            r == control_read_value(self.control(), reg as int),
    {
        let array_index = reg as usize;
        if array_index == 4 || array_index == 12 || array_index == 20 || (26 <= array_index
            && array_index <= 30) {
            self.control_registers[array_index].sign_extend(15)
        } else {
            self.control_registers[array_index]
        }
    }

    /// Reads data register `reg`, with the sign extension, packed colour and
    /// leading-bit count views that some registers give.
    pub fn read_data_reg(&self, reg: i32) -> (r: i32)
        requires
            0 <= reg < 32,
        ensures
            r == data_read_value(self.data(), reg as int),
    {
        let i = reg as usize;
        if i == 1 || i == 3 || i == 5 || i == 8 || i == 9 || i == 10 || i == 11 {
            self.data_registers[i].sign_extend(15)
        } else if i == 23 {
            0
        } else if i == 28 || i == 29 {
            let red = colour_of(self.data_registers[9]);
            let green = colour_of(self.data_registers[10]);
            let blue = colour_of(self.data_registers[11]);
            red | (green << 5) | (blue << 10)
        } else if i == 31 {
            let lzcs = self.data_registers[30];
            let count = if lzcs < 0 {
                (!lzcs).leading_zeroes(31)
            } else {
                lzcs.leading_zeroes(31)
            };
            count
        } else {
            self.data_registers[i]
        }
    }

    /// Writes control register `reg`.
    pub fn write_control_reg(&mut self, reg: i32, value: i32, write_override: bool)
        requires
            0 <= reg < 32,
        ensures
            final(self).control() == old(self).control().update(reg as int, value),
            final(self).data_registers == old(self).data_registers,
            final(self).condition_line == old(self).condition_line,
    {
        self.control_registers[reg as usize] = value;
    }

    /// Writes data register `reg`: without `write_override` some registers
    /// ignore the write, the screen XY FIFO shifts, and IRGB unpacks into
    /// IR1 to IR3.
    pub fn write_data_reg(&mut self, reg: i32, value: i32, write_override: bool)
        requires
            0 <= reg < 32,
        ensures
            final(self).data() == data_written(old(self).data(), reg as int, value, write_override),
            final(self).control_registers == old(self).control_registers,
            final(self).condition_line == old(self).condition_line,
    {
        let i = reg as usize;
        if write_override {
            self.data_registers[i] = value;
        } else if i == 7 || i == 23 || i == 29 || i == 31 {
        } else if i == 14 {
            self.data_registers[14] = value;
            self.data_registers[15] = value;
        } else if i == 15 {
            self.data_registers[12] = self.data_registers[13];
            self.data_registers[13] = self.data_registers[14];
            self.data_registers[14] = value;
            self.data_registers[15] = value;
        } else if i == 28 {
            self.data_registers[9] = (0x1F & value) << 7;
            self.data_registers[10] = (0x3E0 & value) << 2;
            self.data_registers[11] = (0x7C00 & value).logical_rshift(3);
        } else {
            self.data_registers[i] = value;
        }
        proof {
            assert(self.data() =~= data_written(old(self).data(), reg as int, value, write_override));
        }
    }
}

/// The cycles that GTE operation `function` takes; 0 for an unknown one.
pub open spec fn gte_cycles(function: i32) -> i32 {
    if function == 0x01 {
        15
    } else if function == 0x06 || function == 0x10 || function == 0x11 || function == 0x12
        || function == 0x29 {
        8
    } else if function == 0x0C || function == 0x2E {
        6
    } else if function == 0x13 {
        19
    } else if function == 0x14 {
        13
    } else if function == 0x16 {
        44
    } else if function == 0x1B || function == 0x2A {
        17
    } else if function == 0x1C {
        11
    } else if function == 0x1E {
        14
    } else if function == 0x20 {
        30
    } else if function == 0x28 || function == 0x2D || function == 0x3D || function == 0x3E {
        5
    } else if function == 0x30 {
        23
    } else if function == 0x3F {
        39
    } else {
        0
    }
}

/// The sf bit of an opcode: 1 when results are scaled down by 12 bits.
pub open spec fn sf_of(opcode: i32) -> i32 {
    if crate::utility::bit_of_32(opcode, 19) {
        1
    } else {
        0
    }
}

/// The lm bit of an opcode: IR1 to IR3 clamp at 0 from below when set.
pub open spec fn lm_of(opcode: i32) -> bool {
    crate::utility::bit_of_32(opcode, 10)
}

/// A colour FIFO entry from its code byte and three colour bytes.
pub open spec fn colour_word(code: i64, r: i64, g: i64, b: i64) -> i32 {
    ((code << 24u64) | (b << 16u64) | (g << 8u64) | r) as i32
}

/// The CODE byte (bits 24 to 31) of a colour register.
pub open spec fn code_of(x: i32) -> i64 {
    (logical_rshift_32(x, 24) & 0xFF) as i64
}

/// `x / 16` rounded towards zero.
pub open spec fn sixteenth(x: i32) -> i64 {
    (if x < 0 {
        -((-x) / 16)
    } else {
        x / 16
    }) as i64
}

/// Entry (`row`, `col`) of the 3x3 matrix of signed 16-bit lanes stored,
/// row by row and low half first, from control register `first`.
pub open spec fn lane_matrix_entry(c: Seq<i32>, first: int, row: int, col: int) -> i64 {
    let k = row * 3 + col;
    if k % 2 == 0 {
        low_lane_of(c[first + k / 2])
    } else {
        high_lane_of(c[first + k / 2])
    }
}

/// Element `k` of the vector V0, V1 or V2 (`i`) from the data registers.
pub open spec fn lane_vector_entry(d: Seq<i32>, i: int, k: int) -> i64 {
    if k == 0 {
        low_lane_of(d[2 * i])
    } else if k == 1 {
        high_lane_of(d[2 * i])
    } else {
        low_lane_of(d[2 * i + 1])
    }
}

/// The matrix that MVMVA's mx field selects: rotation, light, light colour,
/// or the garbage matrix that the hardware builds for mx = 3.
pub open spec fn mvmva_matrix(c: Seq<i32>, d: Seq<i32>, mx: i32, row: int, col: int) -> i64 {
    if mx == 0 {
        lane_matrix_entry(c, 0, row, col)
    } else if mx == 1 {
        lane_matrix_entry(c, 8, row, col)
    } else if mx == 2 {
        lane_matrix_entry(c, 16, row, col)
    } else if row == 0 {
        if col == 0 {
            -0x60i64
        } else if col == 1 {
            0x60i64
        } else {
            low_lane_of(d[8])
        }
    } else if row == 1 {
        low_lane_of(c[1])
    } else {
        low_lane_of(c[2])
    }
}

/// The vector that MVMVA's v field selects: V0, V1, V2 or IR.
pub open spec fn mvmva_vector(d: Seq<i32>, v: i32, k: int) -> i64 {
    if v < 3 {
        lane_vector_entry(d, v as int, k)
    } else {
        low_lane_of(d[9 + k])
    }
}

/// The translation that MVMVA's cv field selects, scaled by 0x1000: TR, BK,
/// FC, or none.
pub open spec fn mvmva_translation(c: Seq<i32>, cv: i32, k: int) -> int {
    if cv == 0 {
        c[5 + k] * 0x1000
    } else if cv == 1 {
        c[13 + k] * 0x1000
    } else if cv == 2 {
        c[21 + k] * 0x1000
    } else {
        0
    }
}

/// Row `k` of MVMVA's product before scaling. With the far colour selected
/// the hardware adds no translation and keeps only the third column.
pub open spec fn mvmva_sum(c: Seq<i32>, d: Seq<i32>, opcode: i32, k: int) -> int {
    let mx = logical_rshift_32(opcode, 17) & 0x3;
    let v = logical_rshift_32(opcode, 15) & 0x3;
    let cv = logical_rshift_32(opcode, 13) & 0x3;
    if cv != 2 {
        mvmva_matrix(c, d, mx, k, 0) * mvmva_vector(d, v, 0) + mvmva_matrix(c, d, mx, k, 1)
            * mvmva_vector(d, v, 1) + mvmva_matrix(c, d, mx, k, 2) * mvmva_vector(d, v, 2)
            + mvmva_translation(c, cv, k)
    } else {
        mvmva_matrix(c, d, mx, k, 2) * mvmva_vector(d, v, 2)
    }
}

/// One colour component interpolated towards the far colour `fc` by
/// `ir0`: IR = the clamped `(fc * 0x1000 - mac) >> sf*12`, then
/// `(mac + IR * ir0) >> sf*12`.
pub open spec fn interpolated(mac: i64, fc: i64, ir0: i64, sf: i32) -> i64 {
    let shift = (sf * 12) as u64;
    let ir = clamp((((fc * 0x1000 - mac) as i64 >> shift) as i32) as i64, -0x8000i64, 0x7FFFi64);
    ((mac + ir * ir0) as i64) >> shift
}

/// Colour byte `n` (0 for red, 1 for green, 2 for blue) of a colour register.
pub open spec fn colour_byte(x: i32, n: int) -> i64 {
    if n == 0 {
        (x & 0xFF) as i64
    } else if n == 1 {
        (logical_rshift_32(x, 8) & 0xFF) as i64
    } else {
        (logical_rshift_32(x, 16) & 0xFF) as i64
    }
}

/// `x` as its 32-bit accumulator holds it, clamped as IR1 to IR3 are.
pub open spec fn ir_clamped(x: i64, lm: bool) -> i64 {
    clamp((x as i32) as i64, saturated_lower(SaturatedFlagRegisterField::IR1, lm), 0x7FFFi64)
}

/// Accumulator `k` of the light colour stage on the vector (`x0`, `x1`,
/// `x2`): (LCM * x + BK * 0x1000) >> sf*12.
pub open spec fn light_colour_mac(c: Seq<i32>, x0: i64, x1: i64, x2: i64, sf: i32, k: int) -> i64 {
    ((lane_matrix_entry(c, 16, k, 0) * x0 + lane_matrix_entry(c, 16, k, 1) * x1 + lane_matrix_entry(
        c,
        16,
        k,
        2,
    ) * x2 + c[13 + k] * 0x1000) as i64) >> ((sf * 12) as u64)
}

/// Element `k` of the light stage on vector `i`: (LLM * V) >> sf*12, clamped.
pub open spec fn light_ir(c: Seq<i32>, d: Seq<i32>, i: int, sf: i32, lm: bool, k: int) -> i64 {
    ir_clamped(
        ((lane_matrix_entry(c, 8, k, 0) * lane_vector_entry(d, i, 0) + lane_matrix_entry(c, 8, k, 1)
            * lane_vector_entry(d, i, 1) + lane_matrix_entry(c, 8, k, 2) * lane_vector_entry(d, i, 2)) as i64)
            >> ((sf * 12) as u64),
        lm,
    )
}

/// Element `k` of the light colour stage on (`x0`, `x1`, `x2`), clamped.
pub open spec fn lit(c: Seq<i32>, x0: i64, x1: i64, x2: i64, sf: i32, lm: bool, k: int) -> i64 {
    ir_clamped(light_colour_mac(c, x0, x1, x2, sf, k), lm)
}

/// The depth SZ3 that RTPS computes: MAC3 shifted to 16 bits and clamped.
pub open spec fn rtp_sz3(c: Seq<i32>, d: Seq<i32>, sf: i32) -> i64 {
    let mac3 = (rtp_sum(c, d, 2) as i64) >> ((sf * 12) as u64);
    clamp(((mac3 >> (((1 - sf) * 12) as u64)) as i32) as i64, 0i64, 0xFFFFi64)
}

/// MAC0 of RTPS when the division overflows and the quotient is 0x1FFFF:
/// DQB + 0x1FFFF * DQA, on 32 bits.
pub open spec fn rtp_overflow_mac0(c: Seq<i32>) -> i32 {
    (((0x1_FFFF * low_lane_of(c[27]) + c[28]) as i64) & 0xFFFF_FFFF) as i32
}

/// `x` as a 32-bit accumulator holds it.
pub open spec fn reg(x: i64) -> i64 {
    (x as i32) as i64
}

/// `x / 16` rounded towards zero.
pub open spec fn div16(x: i64) -> i64 {
    (if x < 0 {
        -((-x) / 16)
    } else {
        x / 16
    }) as i64
}

/// `f` with the MAC1 to MAC3 range bits of three accumulators.
pub open spec fn mac_flags(f: i32, m0: i64, m1: i64, m2: i64) -> i32 {
    ((f | unsaturated_flag(m0, UnsaturatedFlagRegisterField::MAC1)) | unsaturated_flag(
        m1,
        UnsaturatedFlagRegisterField::MAC2,
    )) | unsaturated_flag(m2, UnsaturatedFlagRegisterField::MAC3)
}

/// `f` with the IR1 to IR3 saturation bits of three accumulators.
pub open spec fn ir_flags(f: i32, m0: i64, m1: i64, m2: i64, lm: bool, sf: i32) -> i32 {
    ((f | saturated_flag(reg(m0), SaturatedFlagRegisterField::IR1, lm, sf)) | saturated_flag(
        reg(m1),
        SaturatedFlagRegisterField::IR2,
        lm,
        sf,
    )) | saturated_flag(reg(m2), SaturatedFlagRegisterField::IR3, lm, sf)
}

/// `f` with the bits that interpolating one component sets.
pub open spec fn interpolation_flags(
    f: i32,
    mac: i64,
    fc: i64,
    ir0: i64,
    sf: i32,
    ir_field: SaturatedFlagRegisterField,
    mac_field: UnsaturatedFlagRegisterField,
) -> i32 {
    let shift = (sf * 12) as u64;
    let start = reg(((fc * 0x1000 - mac) as i64) >> shift);
    let ir = clamp(start, -0x8000i64, 0x7FFFi64);
    let sum = (mac + ir * ir0) as i64;
    ((f | saturated_flag(start, ir_field, false, sf)) | unsaturated_flag(sum, mac_field))
        | unsaturated_flag(sum >> shift, mac_field)
}

/// `f` with the bits that depth cueing three accumulators towards the far
/// colour in `c` sets.
pub open spec fn depth_cue_flags(f: i32, c: Seq<i32>, ir0: i64, m0: i64, m1: i64, m2: i64, sf: i32) -> i32 {
    let f1 = interpolation_flags(f, m0, c[21] as i64, ir0, sf, SaturatedFlagRegisterField::IR1, UnsaturatedFlagRegisterField::MAC1);
    let f2 = interpolation_flags(f1, m1, c[22] as i64, ir0, sf, SaturatedFlagRegisterField::IR2, UnsaturatedFlagRegisterField::MAC2);
    interpolation_flags(f2, m2, c[23] as i64, ir0, sf, SaturatedFlagRegisterField::IR3, UnsaturatedFlagRegisterField::MAC3)
}

/// `f` with the bits that writing IR1 to IR3 and the colour FIFO from three
/// accumulators sets.
pub open spec fn colour_flags(f: i32, m0: i64, m1: i64, m2: i64, lm: bool, sf: i32) -> i32 {
    let (a, b, c) = (reg(m0), reg(m1), reg(m2));
    let g = ir_flags(f, a, b, c, lm, sf);
    ((g | saturated_flag(reg(div16(a)), SaturatedFlagRegisterField::ColourFifoR, lm, sf))
        | saturated_flag(reg(div16(b)), SaturatedFlagRegisterField::ColourFifoG, lm, sf))
        | saturated_flag(reg(div16(c)), SaturatedFlagRegisterField::ColourFifoB, lm, sf)
}

/// The flag register after the light colour stage on (`x0`, `x1`, `x2`),
/// the colour products and depth cueing, from flag `f` (bit 31 not yet summarised).
pub open spec fn colour_depth_flags(c: Seq<i32>, d: Seq<i32>, x0: i64, x1: i64, x2: i64, sf: i32, lm: bool, f: i32) -> i32 {
    let l0 = light_colour_mac(c, x0, x1, x2, sf, 0);
    let l1 = light_colour_mac(c, x0, x1, x2, sf, 1);
    let l2 = light_colour_mac(c, x0, x1, x2, sf, 2);
    let p0 = (colour_byte(d[6], 0) * lit(c, x0, x1, x2, sf, lm, 0) * 16) as i64;
    let p1 = (colour_byte(d[6], 1) * lit(c, x0, x1, x2, sf, lm, 1) * 16) as i64;
    let p2 = (colour_byte(d[6], 2) * lit(c, x0, x1, x2, sf, lm, 2) * 16) as i64;
    let ir0 = low_lane_of(d[8]);
    let m0 = interpolated(p0, c[21] as i64, ir0, sf);
    let m1 = interpolated(p1, c[22] as i64, ir0, sf);
    let m2 = interpolated(p2, c[23] as i64, ir0, sf);
    let f1 = ir_flags(mac_flags(f, l0, l1, l2), l0, l1, l2, lm, sf);
    let f2 = mac_flags(f1, p0, p1, p2);
    let f3 = depth_cue_flags(f2, c, ir0, p0, p1, p2, sf);
    colour_flags(f3, m0, m1, m2, lm, sf)
}

/// The flag register after the light colour stage on (`x0`, `x1`, `x2`) and
/// the scaled colour products, from flag `f` (bit 31 not yet summarised).
pub open spec fn colour_colour_flags(c: Seq<i32>, d: Seq<i32>, x0: i64, x1: i64, x2: i64, sf: i32, lm: bool, f: i32) -> i32 {
    let shift = (sf * 12) as u64;
    let l0 = light_colour_mac(c, x0, x1, x2, sf, 0);
    let l1 = light_colour_mac(c, x0, x1, x2, sf, 1);
    let l2 = light_colour_mac(c, x0, x1, x2, sf, 2);
    let p0 = (colour_byte(d[6], 0) * lit(c, x0, x1, x2, sf, lm, 0) * 16) as i64;
    let p1 = (colour_byte(d[6], 1) * lit(c, x0, x1, x2, sf, lm, 1) * 16) as i64;
    let p2 = (colour_byte(d[6], 2) * lit(c, x0, x1, x2, sf, lm, 2) * 16) as i64;
    let f1 = ir_flags(mac_flags(f, l0, l1, l2), l0, l1, l2, lm, sf);
    let f2 = mac_flags(f1, p0, p1, p2);
    let f3 = mac_flags(f2, p0 >> shift, p1 >> shift, p2 >> shift);
    colour_flags(f3, p0 >> shift, p1 >> shift, p2 >> shift, lm, sf)
}

/// `x / m` rounded towards zero.
pub open spec fn quotient_towards_zero(x: i64, m: int) -> i64 {
    (if x < 0 {
        -((-(x as int)) / m)
    } else {
        x as int / m
    }) as i64
}

/// Row `k` of RTPS's rotation and translation of V0, before scaling.
pub open spec fn rtp_sum(c: Seq<i32>, d: Seq<i32>, k: int) -> int {
    lane_matrix_entry(c, 0, k, 0) * lane_vector_entry(d, 0, 0) + lane_matrix_entry(c, 0, k, 1)
        * lane_vector_entry(d, 0, 1) + lane_matrix_entry(c, 0, k, 2) * lane_vector_entry(d, 0, 2)
        + c[5 + k] * 0x1000
}

impl CP2 {
    /// The flag register.
    pub open spec fn flag(&self) -> i32 {
        self.control_registers@[31]
    }

    /// Only the flag register and the data registers in `changed` may differ from `o`.
    pub open spec fn gte_frame(&self, o: &CP2, changed: Set<int>) -> bool {
        &&& forall|i: int| 0 <= i < 31 ==> #[trigger] self.control_registers@[i] == o.control_registers@[i]
        &&& forall|i: int|
            0 <= i < 32 && !changed.contains(i) ==> #[trigger] self.data_registers@[i]
                == o.data_registers@[i]
        &&& self.condition_line == o.condition_line
    }

    /// IR1 to IR3 are MAC1 to MAC3 clamped, from below at 0 when `lm` is
    /// set and at -0x8000 otherwise, and from above at 0x7FFF.
    pub open spec fn ir_follows_mac(&self, lm: bool) -> bool {
        let d = self.data();
        let lo = saturated_lower(SaturatedFlagRegisterField::IR1, lm);
        &&& d[9] == clamp(d[25] as i64, lo, 0x7FFFi64) as i32
        &&& d[10] == clamp(d[26] as i64, lo, 0x7FFFi64) as i32
        &&& d[11] == clamp(d[27] as i64, lo, 0x7FFFi64) as i32
    }

    /// The newest colour FIFO entry is MAC1 to MAC3 divided by 16 and
    /// clamped to a byte, under the CODE byte `code`.
    pub open spec fn colour_follows_mac(&self, code: i64) -> bool {
        let d = self.data();
        d[22] == colour_word(
            code,
            clamp(sixteenth(d[25]), 0i64, 0xFFi64),
            clamp(sixteenth(d[26]), 0i64, 0xFFi64),
            clamp(sixteenth(d[27]), 0i64, 0xFFi64),
        )
    }

    /// Bit 31 of the flag register is set whenever one of its error bits is.
    pub open spec fn flag_summarised(&self) -> bool {
        (self.flag() & 0x7F87_E000 != 0) == (self.flag() < 0)
    }

    /// The outputs of a colour operation: IR and the newest colour FIFO entry
    /// follow MAC, and bit 31 of the flag register summarises its error bits.
    pub open spec fn colour_outputs(&self, lm: bool, code: i64) -> bool {
        &&& self.ir_follows_mac(lm)
        &&& self.colour_follows_mac(code)
        &&& self.flag_summarised()
    }

    /// MAC1 to MAC3 hold the rotation and translation of `o`'s V0, scaled
    /// down by 12 bits when `sf` is 1.
    pub open spec fn rotated_once(&self, o: &CP2, sf: i32) -> bool {
        let shift = (sf * 12) as u64;
        &&& self.data()[25] == ((rtp_sum(o.control(), o.data(), 0) as i64) >> shift) as i32
        &&& self.data()[26] == ((rtp_sum(o.control(), o.data(), 1) as i64) >> shift) as i32
        &&& self.data()[27] == ((rtp_sum(o.control(), o.data(), 2) as i64) >> shift) as i32
    }

    /// MAC1 to MAC3 hold `o`'s RGBC colour, scaled by 0x10000, interpolated
    /// towards the far colour by IR0.
    pub open spec fn depth_cued_rgbc(&self, o: &CP2, sf: i32) -> bool {
        let d = o.data();
        let c = o.control();
        &&& self.data()[25] == interpolated((colour_byte(d[6], 0) * 0x1_0000) as i64, c[21] as i64, low_lane_of(d[8]), sf) as i32
        &&& self.data()[26] == interpolated((colour_byte(d[6], 1) * 0x1_0000) as i64, c[22] as i64, low_lane_of(d[8]), sf) as i32
        &&& self.data()[27] == interpolated((colour_byte(d[6], 2) * 0x1_0000) as i64, c[23] as i64, low_lane_of(d[8]), sf) as i32
    }

    /// MAC1 to MAC3 hold `o`'s RGBC colour lit by the light colour stage on
    /// (`x0`, `x1`, `x2`), scaled down by 12 bits when `sf` is 1.
    pub open spec fn coloured(&self, o: &CP2, x0: i64, x1: i64, x2: i64, sf: i32, lm: bool) -> bool {
        let d = o.data();
        let c = o.control();
        let shift = (sf * 12) as u64;
        &&& self.data()[25] == (((colour_byte(d[6], 0) * lit(c, x0, x1, x2, sf, lm, 0) * 16) as i64) >> shift) as i32
        &&& self.data()[26] == (((colour_byte(d[6], 1) * lit(c, x0, x1, x2, sf, lm, 1) * 16) as i64) >> shift) as i32
        &&& self.data()[27] == (((colour_byte(d[6], 2) * lit(c, x0, x1, x2, sf, lm, 2) * 16) as i64) >> shift) as i32
    }

    /// MAC1 to MAC3 hold `o`'s RGBC colour lit by the light colour stage on
    /// (`x0`, `x1`, `x2`) and interpolated towards the far colour by IR0.
    pub open spec fn colour_depth_cued(&self, o: &CP2, x0: i64, x1: i64, x2: i64, sf: i32, lm: bool) -> bool {
        let d = o.data();
        let c = o.control();
        let ir0 = low_lane_of(d[8]);
        &&& self.data()[25] == interpolated((colour_byte(d[6], 0) * lit(c, x0, x1, x2, sf, lm, 0) * 16) as i64, c[21] as i64, ir0, sf) as i32
        &&& self.data()[26] == interpolated((colour_byte(d[6], 1) * lit(c, x0, x1, x2, sf, lm, 1) * 16) as i64, c[22] as i64, ir0, sf) as i32
        &&& self.data()[27] == interpolated((colour_byte(d[6], 2) * lit(c, x0, x1, x2, sf, lm, 2) * 16) as i64, c[23] as i64, ir0, sf) as i32
    }

    /// MAC1 to MAC3 hold the light colour stage on the light stage of `o`'s V0.
    pub open spec fn normal_coloured(&self, o: &CP2, sf: i32, lm: bool) -> bool {
        let c = o.control();
        let d = o.data();
        let (x0, x1, x2) = (light_ir(c, d, 0, sf, lm, 0), light_ir(c, d, 0, sf, lm, 1), light_ir(c, d, 0, sf, lm, 2));
        &&& self.data()[25] == light_colour_mac(c, x0, x1, x2, sf, 0) as i32
        &&& self.data()[26] == light_colour_mac(c, x0, x1, x2, sf, 1) as i32
        &&& self.data()[27] == light_colour_mac(c, x0, x1, x2, sf, 2) as i32
    }

    /// `self` is `o` after `handle_common_rtp`.
    pub open spec fn rtp_done(&self, o: &CP2, opcode: i32, variant: InstructionVariant) -> bool {
        &&& self.gte_frame(
                o,
                set![8, 9, 10, 11, 12, 13, 14, 15, 16, 17, 18, 19, 24, 25, 26, 27],
            )
        &&& self.ir_in_range()
        &&& self.ir_follows_mac(false)
        &&& self.flag_summarised()
        &&& self.data()[15] == self.data()[14]
        &&& 0 <= self.data()[19] <= 0xFFFF
        &&& 0 <= self.data()[8] <= 0x1000
        &&& variant == InstructionVariant::Single ==> self.fifos_pushed_once(o)
        &&& variant == InstructionVariant::Single ==> self.rotated_once(o, sf_of(opcode))
        &&& variant == InstructionVariant::Single ==> self.depth_projected(o, sf_of(opcode))
        &&& variant == InstructionVariant::Single ==> self.rtp_projected(o, sf_of(opcode))
    }

    /// `self` is `o` after `handle_nclip`.
    pub open spec fn nclip_done(&self, o: &CP2, opcode: i32) -> bool {
        &&& ({
                let d = o.data();
                let (sx0, sy0) = (low_lane_of(d[12]), high_lane_of(d[12]));
                let (sx1, sy1) = (low_lane_of(d[13]), high_lane_of(d[13]));
                let (sx2, sy2) = (low_lane_of(d[14]), high_lane_of(d[14]));
                let mac0 = (sx0 * sy1 + sx1 * sy2 + sx2 * sy0 - sx0 * sy2 - sx1 * sy0 - sx2 * sy1) as i64;
                &&& self.data() == d.update(24, mac0 as i32)
                &&& self.flag() == summarised(0i32 | unsaturated_flag(mac0, UnsaturatedFlagRegisterField::MAC0))
                &&& self.gte_frame(o, set![24])
            })
        &&& self.flag_summarised()
    }

    /// `self` is `o` after `handle_op`.
    pub open spec fn op_done(&self, o: &CP2, opcode: i32) -> bool {
        &&& self.gte_frame(o, set![9, 10, 11, 25, 26, 27])
        &&& self.ir_in_range()
        &&& self.ir_follows_mac(lm_of(opcode))
        &&& self.flag_summarised()
        &&& ({
                let sf = sf_of(opcode);
                let lm = lm_of(opcode);
                let d = o.data();
                let c = o.control();
                let (i1, i2, i3) = (low_lane_of(d[9]), low_lane_of(d[10]), low_lane_of(d[11]));
                let (d1, d2, d3) = (low_lane_of(c[0]), low_lane_of(c[2]), low_lane_of(c[4]));
                let t1 = ((i3 * d2 - i2 * d3) as i64) >> ((sf * 12) as u64);
                let t2 = ((i1 * d3 - i3 * d1) as i64) >> ((sf * 12) as u64);
                let t3 = ((i2 * d1 - i1 * d2) as i64) >> ((sf * 12) as u64);
                let lo = saturated_lower(SaturatedFlagRegisterField::IR1, lm);
                &&& self.data() == d.update(25, t1 as i32).update(26, t2 as i32).update(
                    27,
                    t3 as i32,
                ).update(9, clamp((t1 as i32) as i64, lo, 0x7FFFi64) as i32).update(
                    10,
                    clamp((t2 as i32) as i64, lo, 0x7FFFi64) as i32,
                ).update(11, clamp((t3 as i32) as i64, lo, 0x7FFFi64) as i32)
                &&& self.flag() == summarised(
                    (((((0i32 | unsaturated_flag(t1, UnsaturatedFlagRegisterField::MAC1))
                        | unsaturated_flag(t2, UnsaturatedFlagRegisterField::MAC2))
                        | unsaturated_flag(t3, UnsaturatedFlagRegisterField::MAC3))
                        | saturated_flag((t1 as i32) as i64, SaturatedFlagRegisterField::IR1, lm, sf))
                        | saturated_flag((t2 as i32) as i64, SaturatedFlagRegisterField::IR2, lm, sf))
                        | saturated_flag((t3 as i32) as i64, SaturatedFlagRegisterField::IR3, lm, sf),
                )
            })
    }

    /// `self` is `o` after `handle_common_dpc`.
    pub open spec fn dpc_done(&self, o: &CP2, opcode: i32, variant: InstructionVariant) -> bool {
        &&& self.gte_frame(o, set![9, 10, 11, 20, 21, 22, 25, 26, 27])
        &&& self.ir_in_range()
        &&& self.colour_outputs(lm_of(opcode), code_of(o.data()[6]))
        &&& variant == InstructionVariant::Single ==> self.depth_cued_rgbc(o, sf_of(opcode))
    }

    /// `self` is `o` after `handle_intpl`.
    pub open spec fn intpl_done(&self, o: &CP2, opcode: i32) -> bool {
        &&& self.gte_frame(o, set![9, 10, 11, 20, 21, 22, 25, 26, 27])
        &&& self.ir_in_range()
        &&& self.colour_outputs(lm_of(opcode), code_of(o.data()[6]))
        &&& ({
                let sf = sf_of(opcode);
                let d = o.data();
                let c = o.control();
                let ir0 = low_lane_of(d[8]);
                &&& self.data()[25] == (interpolated((low_lane_of(d[9]) * 0x1000) as i64, c[21] as i64, ir0, sf)) as i32
                &&& self.data()[26] == (interpolated((low_lane_of(d[10]) * 0x1000) as i64, c[22] as i64, ir0, sf)) as i32
                &&& self.data()[27] == (interpolated((low_lane_of(d[11]) * 0x1000) as i64, c[23] as i64, ir0, sf)) as i32
            })
    }

    /// `self` is `o` after `handle_mvmva`.
    pub open spec fn mvmva_done(&self, o: &CP2, opcode: i32) -> bool {
        &&& self.gte_frame(o, set![9, 10, 11, 25, 26, 27])
        &&& self.ir_in_range()
        &&& self.ir_follows_mac(lm_of(opcode))
        &&& self.flag_summarised()
        &&& ({
                let shift = (sf_of(opcode) * 12) as u64;
                let c = o.control();
                let d = o.data();
                &&& self.data()[25] == ((mvmva_sum(c, d, opcode, 0) as i64) >> shift) as i32
                &&& self.data()[26] == ((mvmva_sum(c, d, opcode, 1) as i64) >> shift) as i32
                &&& self.data()[27] == ((mvmva_sum(c, d, opcode, 2) as i64) >> shift) as i32
            })
        &&& ({
            let shift = (sf_of(opcode) * 12) as u64;
            let (sf, lm) = (sf_of(opcode), lm_of(opcode));
            let m0 = (mvmva_sum(o.control(), o.data(), opcode, 0) as i64) >> shift;
            let m1 = (mvmva_sum(o.control(), o.data(), opcode, 1) as i64) >> shift;
            let m2 = (mvmva_sum(o.control(), o.data(), opcode, 2) as i64) >> shift;
            self.flag() == summarised(
                (((((0i32 | unsaturated_flag(m0, UnsaturatedFlagRegisterField::MAC1))
                    | unsaturated_flag(m1, UnsaturatedFlagRegisterField::MAC2))
                    | unsaturated_flag(m2, UnsaturatedFlagRegisterField::MAC3))
                    | saturated_flag((m0 as i32) as i64, SaturatedFlagRegisterField::IR1, lm, sf))
                    | saturated_flag((m1 as i32) as i64, SaturatedFlagRegisterField::IR2, lm, sf))
                    | saturated_flag((m2 as i32) as i64, SaturatedFlagRegisterField::IR3, lm, sf),
            )
        })
    }

    /// `self` is `o` after `handle_common_ncd`.
    pub open spec fn ncd_done(&self, o: &CP2, opcode: i32, variant: InstructionVariant) -> bool {
        &&& self.gte_frame(o, set![9, 10, 11, 20, 21, 22, 25, 26, 27])
        &&& self.ir_in_range()
        &&& self.colour_outputs(lm_of(opcode), code_of(o.data()[6]))
        &&& variant == InstructionVariant::Single ==> self.colour_depth_cued(o, light_ir(o.control(), o.data(), 0, sf_of(opcode), lm_of(opcode), 0), light_ir(o.control(), o.data(), 0, sf_of(opcode), lm_of(opcode), 1), light_ir(o.control(), o.data(), 0, sf_of(opcode), lm_of(opcode), 2), sf_of(opcode), lm_of(opcode))
    }

    /// `self` is `o` after `handle_cdp`.
    pub open spec fn cdp_done(&self, o: &CP2, opcode: i32) -> bool {
        &&& self.gte_frame(o, set![9, 10, 11, 20, 21, 22, 25, 26, 27])
        &&& self.ir_in_range()
        &&& self.colour_outputs(lm_of(opcode), code_of(o.data()[6]))
        &&& self.colour_depth_cued(
                o,
                low_lane_of(o.data()[9]),
                low_lane_of(o.data()[10]),
                low_lane_of(o.data()[11]),
                sf_of(opcode),
                lm_of(opcode),
            )
        &&& self.flag() == summarised(
            colour_depth_flags(
                o.control(),
                o.data(),
                low_lane_of(o.data()[9]),
                low_lane_of(o.data()[10]),
                low_lane_of(o.data()[11]),
                sf_of(opcode),
                lm_of(opcode),
                0,
            ),
        )
    }

    /// `self` is `o` after `handle_common_ncc`.
    pub open spec fn ncc_done(&self, o: &CP2, opcode: i32, variant: InstructionVariant) -> bool {
        &&& self.gte_frame(o, set![9, 10, 11, 20, 21, 22, 25, 26, 27])
        &&& self.ir_in_range()
        &&& self.colour_outputs(lm_of(opcode), code_of(o.data()[6]))
        &&& variant == InstructionVariant::Single ==> self.coloured(o, light_ir(o.control(), o.data(), 0, sf_of(opcode), lm_of(opcode), 0), light_ir(o.control(), o.data(), 0, sf_of(opcode), lm_of(opcode), 1), light_ir(o.control(), o.data(), 0, sf_of(opcode), lm_of(opcode), 2), sf_of(opcode), lm_of(opcode))
    }

    /// `self` is `o` after `handle_cc`.
    pub open spec fn cc_done(&self, o: &CP2, opcode: i32) -> bool {
        &&& self.gte_frame(o, set![9, 10, 11, 20, 21, 22, 25, 26, 27])
        &&& self.ir_in_range()
        &&& self.colour_outputs(lm_of(opcode), code_of(o.data()[6]))
        &&& self.coloured(
                o,
                low_lane_of(o.data()[9]),
                low_lane_of(o.data()[10]),
                low_lane_of(o.data()[11]),
                sf_of(opcode),
                lm_of(opcode),
            )
        &&& self.flag() == summarised(
            colour_colour_flags(
                o.control(),
                o.data(),
                low_lane_of(o.data()[9]),
                low_lane_of(o.data()[10]),
                low_lane_of(o.data()[11]),
                sf_of(opcode),
                lm_of(opcode),
                0,
            ),
        )
    }

    /// `self` is `o` after `handle_common_nc`.
    pub open spec fn nc_done(&self, o: &CP2, opcode: i32, variant: InstructionVariant) -> bool {
        &&& self.gte_frame(o, set![9, 10, 11, 20, 21, 22, 25, 26, 27])
        &&& self.ir_in_range()
        &&& self.colour_outputs(lm_of(opcode), code_of(o.data()[6]))
        &&& variant == InstructionVariant::Single ==> self.normal_coloured(o, sf_of(opcode), lm_of(opcode))
    }

    /// `self` is `o` after `handle_sqr`.
    pub open spec fn sqr_done(&self, o: &CP2, opcode: i32) -> bool {
        &&& ({
                let sf = sf_of(opcode);
                let m1 = (low_lane_of(o.data()[9]) * low_lane_of(o.data()[9])) as i64 >> ((sf * 12) as u64);
                let m2 = (low_lane_of(o.data()[10]) * low_lane_of(o.data()[10])) as i64 >> ((sf * 12) as u64);
                let m3 = (low_lane_of(o.data()[11]) * low_lane_of(o.data()[11])) as i64 >> ((sf * 12) as u64);
                &&& self.data() == o.data().update(25, m1 as i32).update(26, m2 as i32).update(
                    27,
                    m3 as i32,
                ).update(9, clamp((m1 as i32) as i64, -0x8000i64, 0x7FFFi64) as i32).update(
                    10,
                    clamp((m2 as i32) as i64, -0x8000i64, 0x7FFFi64) as i32,
                ).update(11, clamp((m3 as i32) as i64, -0x8000i64, 0x7FFFi64) as i32)
                &&& self.flag() == summarised(
                    ((0i32 | saturated_flag((m1 as i32) as i64, SaturatedFlagRegisterField::IR1, false, sf)) | saturated_flag(
                        (m2 as i32) as i64,
                        SaturatedFlagRegisterField::IR2,
                        false,
                        sf,
                    )) | saturated_flag((m3 as i32) as i64, SaturatedFlagRegisterField::IR3, false, sf),
                )
                &&& self.gte_frame(o, set![9, 10, 11, 25, 26, 27])
            })
        &&& self.flag_summarised()
    }

    /// `self` is `o` after `handle_dcpl`.
    pub open spec fn dcpl_done(&self, o: &CP2, opcode: i32) -> bool {
        &&& self.gte_frame(o, set![9, 10, 11, 20, 21, 22, 25, 26, 27])
        &&& self.ir_in_range()
        &&& self.colour_outputs(lm_of(opcode), code_of(o.data()[6]))
        &&& ({
                let sf = sf_of(opcode);
                let d = o.data();
                let c = o.control();
                let ir0 = low_lane_of(d[8]);
                &&& self.data()[25] == (interpolated((colour_byte(d[6], 0) * low_lane_of(d[9]) * 16) as i64, c[21] as i64, ir0, sf)) as i32
                &&& self.data()[26] == (interpolated((colour_byte(d[6], 1) * low_lane_of(d[10]) * 16) as i64, c[22] as i64, ir0, sf)) as i32
                &&& self.data()[27] == (interpolated((colour_byte(d[6], 2) * low_lane_of(d[11]) * 16) as i64, c[23] as i64, ir0, sf)) as i32
            })
    }

    /// `self` is `o` after `handle_avsz3`.
    pub open spec fn avsz3_done(&self, o: &CP2, opcode: i32) -> bool {
        &&& self.averaged_z(o, false)
        &&& self.flag_summarised()
    }

    /// `self` is `o` after `handle_avsz4`.
    pub open spec fn avsz4_done(&self, o: &CP2, opcode: i32) -> bool {
        &&& self.averaged_z(o, true)
        &&& self.flag_summarised()
    }

    /// `self` is `o` after `handle_gpf`.
    pub open spec fn gpf_done(&self, o: &CP2, opcode: i32) -> bool {
        &&& self.gte_frame(o, set![9, 10, 11, 20, 21, 22, 25, 26, 27])
        &&& self.ir_in_range()
        &&& self.colour_outputs(lm_of(opcode), code_of(o.data()[6]))
        &&& ({
                let sf = sf_of(opcode);
                let d = o.data();
                let c = o.control();
                let ir0 = low_lane_of(d[8]);
                &&& self.data()[25] == (((low_lane_of(d[9]) * ir0) as i64) >> ((sf * 12) as u64)) as i32
                &&& self.data()[26] == (((low_lane_of(d[10]) * ir0) as i64) >> ((sf * 12) as u64)) as i32
                &&& self.data()[27] == (((low_lane_of(d[11]) * ir0) as i64) >> ((sf * 12) as u64)) as i32
            })
    }

    /// `self` is `o` after `handle_gpl`.
    pub open spec fn gpl_done(&self, o: &CP2, opcode: i32) -> bool {
        &&& self.gte_frame(o, set![9, 10, 11, 20, 21, 22, 25, 26, 27])
        &&& self.ir_in_range()
        &&& self.colour_outputs(lm_of(opcode), code_of(o.data()[6]))
        &&& ({
                let sf = sf_of(opcode);
                let d = o.data();
                let c = o.control();
                let ir0 = low_lane_of(d[8]);
                &&& self.data()[25] == (((low_lane_of(d[9]) * ir0 + d[25] * (if sf == 1 { 0x1000int } else { 1int })) as i64) >> ((sf * 12) as u64)) as i32
                &&& self.data()[26] == (((low_lane_of(d[10]) * ir0 + d[26] * (if sf == 1 { 0x1000int } else { 1int })) as i64) >> ((sf * 12) as u64)) as i32
                &&& self.data()[27] == (((low_lane_of(d[11]) * ir0 + d[27] * (if sf == 1 { 0x1000int } else { 1int })) as i64) >> ((sf * 12) as u64)) as i32
            })
    }

    /// SZ3 holds the depth of `o`'s V0; when H is not below twice that
    /// depth, the division overflows: flag bit 17 is set and MAC0 holds
    /// DQB + 0x1FFFF * DQA.
    pub open spec fn depth_projected(&self, o: &CP2, sf: i32) -> bool {
        let sz3 = rtp_sz3(o.control(), o.data(), sf);
        &&& self.data()[19] == sz3 as i32
        &&& (o.control()[26] & 0xFFFF) >= 2 * sz3 ==> self.data()[24] == rtp_overflow_mac0(o.control())
            && self.flag() & 0x2_0000 != 0
    }

    /// `self` is `o` after the GTE operation that `opcode` selects.
    pub open spec fn gte_done(&self, o: &CP2, opcode: i32) -> bool {
        &&& gte_cycles(opcode & 0x3F) != 0 ==> self.flag_summarised()
        &&& gte_cycles(opcode & 0x3F) == 0 ==> *self == *o
        &&& self.condition_line == o.condition_line
        &&& opcode & 0x3F == 0x01 ==> self.rtp_done(o, opcode, InstructionVariant::Single)
        &&& opcode & 0x3F == 0x06 ==> self.nclip_done(o, opcode)
        &&& opcode & 0x3F == 0x0C ==> self.op_done(o, opcode)
        &&& opcode & 0x3F == 0x10 ==> self.dpc_done(o, opcode, InstructionVariant::Single)
        &&& opcode & 0x3F == 0x11 ==> self.intpl_done(o, opcode)
        &&& opcode & 0x3F == 0x12 ==> self.mvmva_done(o, opcode)
        &&& opcode & 0x3F == 0x13 ==> self.ncd_done(o, opcode, InstructionVariant::Single)
        &&& opcode & 0x3F == 0x14 ==> self.cdp_done(o, opcode)
        &&& opcode & 0x3F == 0x16 ==> self.ncd_done(o, opcode, InstructionVariant::Triple)
        &&& opcode & 0x3F == 0x1B ==> self.ncc_done(o, opcode, InstructionVariant::Single)
        &&& opcode & 0x3F == 0x1C ==> self.cc_done(o, opcode)
        &&& opcode & 0x3F == 0x1E ==> self.nc_done(o, opcode, InstructionVariant::Single)
        &&& opcode & 0x3F == 0x20 ==> self.nc_done(o, opcode, InstructionVariant::Triple)
        &&& opcode & 0x3F == 0x28 ==> self.sqr_done(o, opcode)
        &&& opcode & 0x3F == 0x29 ==> self.dcpl_done(o, opcode)
        &&& opcode & 0x3F == 0x2A ==> self.dpc_done(o, opcode, InstructionVariant::Triple)
        &&& opcode & 0x3F == 0x2D ==> self.avsz3_done(o, opcode)
        &&& opcode & 0x3F == 0x2E ==> self.avsz4_done(o, opcode)
        &&& opcode & 0x3F == 0x30 ==> self.rtp_done(o, opcode, InstructionVariant::Triple)
        &&& opcode & 0x3F == 0x3D ==> self.gpf_done(o, opcode)
        &&& opcode & 0x3F == 0x3E ==> self.gpl_done(o, opcode)
        &&& opcode & 0x3F == 0x3F ==> self.ncc_done(o, opcode, InstructionVariant::Triple)
    }

    /// MAC0 and IR0 hold the depth cue of `o`'s V0: DQB plus DQA times the
    /// quotient H / SZ3 (or 0x1FFFF when the division overflows).
    pub open spec fn rtp_projected(&self, o: &CP2, sf: i32) -> bool {
        let c = o.control();
        let d = o.data();
        let shift = (sf * 12) as u64;
        let sz3 = rtp_sz3(c, d, sf);
        let h = (c[26] & 0xFFFF) as int;
        let q = if h < 2 * sz3 {
            unr_quotient(h, sz3 as int)
        } else {
            0x1_FFFF
        };
        let mac0 = ((q * low_lane_of(c[27]) + c[28]) as i64) & 0xFFFF_FFFF;
        let ir0 = clamp(reg(quotient_towards_zero(mac0, 0x1000)), 0i64, 0x1000i64);
        &&& self.data()[24] == mac0 as i32
        &&& self.data()[8] == ir0 as i32
    }

    /// The screen XY and Z FIFOs of `o` moved on by one entry.
    pub open spec fn fifos_pushed_once(&self, o: &CP2) -> bool {
        &&& self.data()[12] == o.data()[13]
        &&& self.data()[13] == o.data()[14]
        &&& self.data()[16] == o.data()[17]
        &&& self.data()[17] == o.data()[18]
        &&& self.data()[18] == o.data()[19]
    }

    /// IR1 to IR3 hold values of their clamp range.
    pub open spec fn ir_in_range(&self) -> bool {
        &&& -0x8000 <= self.data_registers@[9] <= 0x7FFF
        &&& -0x8000 <= self.data_registers@[10] <= 0x7FFF
        &&& -0x8000 <= self.data_registers@[11] <= 0x7FFF
    }

    /// Sets the flag bit for an unclamped result outside its range.
    pub fn handle_unsaturated_result(&mut self, result: i64, result_type: UnsaturatedFlagRegisterField)
        ensures
            final(self).control() == old(self).control().update(
                31,
                old(self).flag() | unsaturated_flag(result, result_type),
            ),
            old(self).flag() >= 0 ==> final(self).flag() >= 0,
            old(self).flag() & 0x2_0000 != 0 ==> final(self).flag() & 0x2_0000 != 0,
            final(self).data_registers == old(self).data_registers,
            final(self).condition_line == old(self).condition_line,
    {
        let (lower_bound, upper_bound) = match result_type {
            UnsaturatedFlagRegisterField::MAC0 => (-0x8000_0000i64, 0x7FFF_FFFFi64),
            _ => (-0x800_0000_0000i64, 0x7FF_FFFF_FFFFi64),
        };
        let (lower_bit_flag, upper_bit_flag) = match result_type {
            UnsaturatedFlagRegisterField::MAC0 => (0x8000i32, 0x1_0000i32),
            UnsaturatedFlagRegisterField::MAC1 => (0x800_0000i32, 0x4000_0000i32),
            UnsaturatedFlagRegisterField::MAC2 => (0x400_0000i32, 0x2000_0000i32),
            UnsaturatedFlagRegisterField::MAC3 => (0x200_0000i32, 0x1000_0000i32),
        };
        let flag = self.control_registers[31];
        assert((flag >= 0 && 0 <= lower_bit_flag ==> flag | lower_bit_flag >= 0) && (flag >= 0 && 0
            <= upper_bit_flag ==> flag | upper_bit_flag >= 0) && (flag & 0x2_0000 != 0 ==> (flag
            | lower_bit_flag) & 0x2_0000 != 0 && (flag | upper_bit_flag) & 0x2_0000 != 0) && flag | 0
            == flag) by (bit_vector);
        if result < lower_bound {
            self.control_registers[31] = flag | lower_bit_flag;
        } else if result > upper_bound {
            self.control_registers[31] = flag | upper_bit_flag;
        }
    }

    /// Clamps `result` to the range of its field, and sets the field's flag
    /// bit when it fell outside (with the IR3 quirk of RTPS and RTPT).
    pub fn handle_saturated_result(&mut self, result: i64, result_type: SaturatedFlagRegisterField, lm: bool, sf: i32) -> (r: i64)
        requires
            sf == 0 || sf == 1,
        ensures
            r == clamp(result, saturated_lower(result_type, lm), saturated_upper(result_type)),
            final(self).control() == old(self).control().update(
                31,
                old(self).flag() | saturated_flag(result, result_type, lm, sf),
            ),
            old(self).flag() >= 0 ==> final(self).flag() >= 0,
            old(self).flag() & 0x2_0000 != 0 ==> final(self).flag() & 0x2_0000 != 0,
            final(self).data_registers == old(self).data_registers,
            final(self).condition_line == old(self).condition_line,
    {
        let lower_bound: i64 = match result_type {
            SaturatedFlagRegisterField::IR0 => 0,
            SaturatedFlagRegisterField::IR1 | SaturatedFlagRegisterField::IR2
            | SaturatedFlagRegisterField::IR3 => if lm {
                0
            } else {
                -0x8000
            },
            SaturatedFlagRegisterField::IR3Quirk => -0x8000,
            SaturatedFlagRegisterField::SX2 | SaturatedFlagRegisterField::SY2 => -0x400,
            _ => 0,
        };
        let upper_bound: i64 = match result_type {
            SaturatedFlagRegisterField::IR0 => 0x1000,
            SaturatedFlagRegisterField::ColourFifoR | SaturatedFlagRegisterField::ColourFifoG
            | SaturatedFlagRegisterField::ColourFifoB => 0xFF,
            SaturatedFlagRegisterField::SX2 | SaturatedFlagRegisterField::SY2 => 0x3FF,
            SaturatedFlagRegisterField::SZ3 => 0xFFFF,
            _ => 0x7FFF,
        };
        let bit_flag: i32 = match result_type {
            SaturatedFlagRegisterField::IR0 => 0x1000,
            SaturatedFlagRegisterField::IR1 => 0x100_0000,
            SaturatedFlagRegisterField::IR2 => 0x80_0000,
            SaturatedFlagRegisterField::IR3 | SaturatedFlagRegisterField::IR3Quirk => 0x40_0000,
            SaturatedFlagRegisterField::ColourFifoR => 0x20_0000,
            SaturatedFlagRegisterField::ColourFifoG => 0x10_0000,
            SaturatedFlagRegisterField::ColourFifoB => 0x8_0000,
            SaturatedFlagRegisterField::SX2 => 0x4000,
            SaturatedFlagRegisterField::SY2 => 0x2000,
            SaturatedFlagRegisterField::SZ3 => 0x4_0000,
        };
        let flag = self.control_registers[31];
        assert(flag | 0 == flag && (flag >= 0 && 0 <= bit_flag ==> flag | bit_flag >= 0) && (flag
            & 0x2_0000 != 0 ==> (flag | bit_flag) & 0x2_0000 != 0)) by (bit_vector);
        if result < lower_bound || result > upper_bound {
            let quirk_spared = match result_type {
                SaturatedFlagRegisterField::IR3Quirk => {
                    let temp = result >> 12u64;
                    sf == 0 && -0x8000 <= temp && temp < 0x7FFF
                },
                _ => false,
            };
            if !quirk_spared {
                self.control_registers[31] = flag | bit_flag;
            }
            if result < lower_bound {
                lower_bound
            } else {
                upper_bound
            }
        } else {
            result
        }
    }

    /// Empties the flag register.
    fn clear_flags(&mut self)
        ensures
            final(self).control() == old(self).control().update(31, 0),
            final(self).data_registers == old(self).data_registers,
            final(self).condition_line == old(self).condition_line,
    {
        self.control_registers[31] = 0;
    }

    /// Sets bit 31 of the flag register when any of its error bits is set.
    fn summarise_flags(&mut self)
        ensures
            final(self).control() == old(self).control().update(31, summarised(old(self).flag())),
            final(self).data_registers == old(self).data_registers,
            final(self).condition_line == old(self).condition_line,
            old(self).flag() >= 0 ==> final(self).flag_summarised(),
            old(self).flag() & 0x2_0000 != 0 ==> final(self).flag() & 0x2_0000 != 0,
    {
        let flag = self.control_registers[31];
        assert((flag >= 0 ==> ((flag & 0x7F87_E000 != 0) ==> (flag | (0x8000_0000u32 as i32)) < 0)
            && ((flag | (0x8000_0000u32 as i32)) & 0x7F87_E000 == flag & 0x7F87_E000)) && (flag
            & 0x2_0000 != 0 ==> (flag | (0x8000_0000u32 as i32)) & 0x2_0000 != 0)) by (bit_vector);
        if (flag & 0x7F87_E000) != 0 {
            self.control_registers[31] = flag | (0x8000_0000u32 as i32);
        }
    }

    /// The sf bit of `opcode`.
    fn sf_bit(opcode: i32) -> (r: i32)
        ensures
            r == sf_of(opcode),
            r == 0 || r == 1,
    {
        opcode.bit_value(19)
    }

    /// The lm bit of `opcode`.
    fn lm_bit(opcode: i32) -> (r: bool)
        ensures
            r == lm_of(opcode),
    {
        opcode.bit_is_set(10)
    }

    /// The 3x3 matrix of signed 16-bit lanes stored in control registers
    /// `first` to `first + 4`.
    fn control_matrix(&self, first: usize) -> (r: CP2Matrix)
        requires
            first + 4 < 32,
        ensures
            r.small(),
            forall|col: int|
                0 <= col < 3 ==> #[trigger] r.top_row@[col] == lane_matrix_entry(
                    self.control(),
                    first as int,
                    0,
                    col,
                ) && r.middle_row@[col] == lane_matrix_entry(self.control(), first as int, 1, col)
                    && r.bottom_row@[col] == lane_matrix_entry(self.control(), first as int, 2, col),
    {
        let c = &self.control_registers;
        CP2Matrix::new(
            [low_lane(c[first]), high_lane(c[first]), low_lane(c[first + 1])],
            [high_lane(c[first + 1]), low_lane(c[first + 2]), high_lane(c[first + 2])],
            [low_lane(c[first + 3]), high_lane(c[first + 3]), low_lane(c[first + 4])],
        )
    }

    /// The vector V0, V1 or V2 from data registers `2i` and `2i + 1`.
    fn input_vector(&self, i: usize) -> (r: CP2Vector)
        requires
            i < 3,
        ensures
            r.small(),
            r.top == lane_vector_entry(self.data(), i as int, 0),
            r.middle == lane_vector_entry(self.data(), i as int, 1),
            r.bottom == lane_vector_entry(self.data(), i as int, 2),
            -0x8000 <= r.top < 0x8000 && -0x8000 <= r.middle < 0x8000 && -0x8000 <= r.bottom < 0x8000,
    {
        CP2Vector::new(
            low_lane(self.data_registers[i * 2]),
            high_lane(self.data_registers[i * 2]),
            low_lane(self.data_registers[i * 2 + 1]),
        )
    }

    /// The vector IR1, IR2, IR3.
    fn ir_vector(&self) -> (r: CP2Vector)
        ensures
            r.small(),
            r.top == low_lane_of(self.data_registers@[9]),
            r.middle == low_lane_of(self.data_registers@[10]),
            r.bottom == low_lane_of(self.data_registers@[11]),
            -0x8000 <= r.top < 0x8000 && -0x8000 <= r.middle < 0x8000 && -0x8000 <= r.bottom < 0x8000,
    {
        CP2Vector::new(
            low_lane(self.data_registers[9]),
            low_lane(self.data_registers[10]),
            low_lane(self.data_registers[11]),
        )
    }

    /// Three control registers, each scaled by 0x1000.
    fn scaled_control_vector(&self, first: usize) -> (r: CP2Vector)
        requires
            first + 2 < 32,
        ensures
            r.summable(),
            r.top == self.control_registers@[first as int] * 0x1000,
            r.middle == self.control_registers@[first + 1] * 0x1000,
            r.bottom == self.control_registers@[first + 2] * 0x1000,
    {
        CP2Vector::new(
            (self.control_registers[first] as i64) * 0x1000,
            (self.control_registers[first + 1] as i64) * 0x1000,
            (self.control_registers[first + 2] as i64) * 0x1000,
        )
    }

    /// The colour bytes R, G, B and CODE of register `reg`.
    fn colour_bytes(&self, reg: usize) -> (r: (i64, i64, i64, i64))
        requires
            reg < 32,
        ensures
            0 <= r.0 < 0x100 && 0 <= r.1 < 0x100 && 0 <= r.2 < 0x100 && 0 <= r.3 < 0x100,
            r.3 == code_of(self.data_registers@[reg as int]),
            r.0 == colour_byte(self.data_registers@[reg as int], 0),
            r.1 == colour_byte(self.data_registers@[reg as int], 1),
            r.2 == colour_byte(self.data_registers@[reg as int], 2),
    {
        let x = self.data_registers[reg];
        let r = x & 0xFF;
        let g = x.logical_rshift(8) & 0xFF;
        let b = x.logical_rshift(16) & 0xFF;
        let code = x.logical_rshift(24) & 0xFF;
        proof {
            let y = logical_rshift_32(x, 8);
            let z = logical_rshift_32(x, 16);
            let w = logical_rshift_32(x, 24);
            assert(0 <= x & 0xFF < 0x100) by (bit_vector);
            assert(0 <= y & 0xFF < 0x100) by (bit_vector);
            assert(0 <= z & 0xFF < 0x100) by (bit_vector);
            assert(0 <= w & 0xFF < 0x100) by (bit_vector);
        }
        (r as i64, g as i64, b as i64, code as i64)
    }

    /// Pushes a new entry onto the colour FIFO.
    fn push_colour(&mut self, code: i64, r: i64, g: i64, b: i64)
        requires
            0 <= code < 0x100,
            0 <= r < 0x100,
            0 <= g < 0x100,
            0 <= b < 0x100,
        ensures
            final(self).data() == old(self).data().update(20, old(self).data()[21]).update(
                21,
                old(self).data()[22],
            ).update(22, colour_word(code, r, g, b)),
            final(self).control_registers == old(self).control_registers,
            final(self).condition_line == old(self).condition_line,
    {
        self.data_registers[20] = self.data_registers[21];
        self.data_registers[21] = self.data_registers[22];
        self.data_registers[22] = ((code << 24u64) | (b << 16u64) | (g << 8u64) | r) as i32;
    }

    /// SQR: squares IR1 to IR3 into MAC1 to MAC3 and IR1 to IR3 (5 cycles).
    pub fn handle_sqr(&mut self, opcode: i32)
        ensures
            final(self).sqr_done(old(self), opcode),
    {
        self.clear_flags();
        let sf = Self::sf_bit(opcode);
        let v = self.ir_vector();
        let mac1 = shift_sf(times(v.top, v.top), sf);
        let mac2 = shift_sf(times(v.middle, v.middle), sf);
        let mac3 = shift_sf(times(v.bottom, v.bottom), sf);
        self.data_registers[25] = mac1 as i32;
        self.data_registers[26] = mac2 as i32;
        self.data_registers[27] = mac3 as i32;
        let ir1 = self.handle_saturated_result(as_register(mac1), SaturatedFlagRegisterField::IR1, false, sf);
        self.data_registers[9] = ir1 as i32;
        let ir2 = self.handle_saturated_result(as_register(mac2), SaturatedFlagRegisterField::IR2, false, sf);
        self.data_registers[10] = ir2 as i32;
        let ir3 = self.handle_saturated_result(as_register(mac3), SaturatedFlagRegisterField::IR3, false, sf);
        self.data_registers[11] = ir3 as i32;
        self.summarise_flags();
        proof {
            assert(self.data() =~= old(self).data().update(25, mac1 as i32).update(26, mac2 as i32).update(
                27,
                mac3 as i32,
            ).update(9, ir1 as i32).update(10, ir2 as i32).update(11, ir3 as i32));
        }
    }

    /// Interpolates one colour component towards the far colour `fc` by IR0:
    /// IR = clamp((fc * 0x1000 - mac) >> sf*12), then
    /// (mac + IR * IR0) >> sf*12, flagging the accumulator on the way.
    fn interpolate_component(
        &mut self,
        mac: i64,
        fc: i64,
        ir0: i64,
        sf: i32,
        ir_field: SaturatedFlagRegisterField,
        mac_field: UnsaturatedFlagRegisterField,
    ) -> (r: i64)
        requires
            sf == 0 || sf == 1,
            within(mac, 0x100_0000_0000),
            within(fc, 0x8000_0000),
            within(ir0, 0x8000),
            ir_field == SaturatedFlagRegisterField::IR1 || ir_field == SaturatedFlagRegisterField::IR2
                || ir_field == SaturatedFlagRegisterField::IR3,
        ensures
            final(self).flag() == interpolation_flags(old(self).flag(), mac, fc, ir0, sf, ir_field, mac_field),
            within(r, 0x2_0000_0000_0000),
            r == interpolated(mac, fc, ir0, sf),
            final(self).data_registers == old(self).data_registers,
            final(self).condition_line == old(self).condition_line,
            old(self).flag() >= 0 ==> final(self).flag() >= 0,
            forall|i: int| 0 <= i < 31 ==> #[trigger] final(self).control_registers@[i]
                == old(self).control_registers@[i],
    {
        let ir = self.handle_saturated_result(as_register(shift_sf(fc * 0x1000 - mac, sf)), ir_field, false, sf);
        let sum = mac + times(ir, ir0);
        self.handle_unsaturated_result(sum, mac_field);
        let shifted = shift_sf(sum, sf);
        self.handle_unsaturated_result(shifted, mac_field);
        shifted
    }

    /// Writes MAC1 to MAC3 and the clamped IR1 to IR3 from `mac`, pushes the
    /// clamped colour `mac / 16` with `code` onto the colour FIFO, and
    /// summarises the flag register.
    fn finish_colour(&mut self, mac: CP2Vector, lm: bool, sf: i32, code: i64)
        requires
            old(self).flag() >= 0,
            sf == 0 || sf == 1,
            0 <= code < 0x100,
            within(mac.top, 0x10_0000_0000_0000),
            within(mac.middle, 0x10_0000_0000_0000),
            within(mac.bottom, 0x10_0000_0000_0000),
        ensures
            final(self).flag() == summarised(colour_flags(old(self).flag(), mac.top, mac.middle, mac.bottom, lm, sf)),
            final(self).gte_frame(old(self), set![9, 10, 11, 20, 21, 22, 25, 26, 27]),
            final(self).ir_in_range(),
            final(self).data()[20] == old(self).data()[21],
            final(self).data()[21] == old(self).data()[22],
            final(self).colour_outputs(lm, code),
            final(self).data()[25] == mac.top as i32,
            final(self).data()[26] == mac.middle as i32,
            final(self).data()[27] == mac.bottom as i32,
    {
        let mac = CP2Vector::new(as_register(mac.top), as_register(mac.middle), as_register(mac.bottom));
        let ir1 = self.handle_saturated_result(as_register(mac.top), SaturatedFlagRegisterField::IR1, lm, sf);
        let ir2 = self.handle_saturated_result(as_register(mac.middle), SaturatedFlagRegisterField::IR2, lm, sf);
        let ir3 = self.handle_saturated_result(as_register(mac.bottom), SaturatedFlagRegisterField::IR3, lm, sf);
        let r_out = self.handle_saturated_result(
            as_register(truncating_div(mac.top, 16)),
            SaturatedFlagRegisterField::ColourFifoR,
            lm,
            sf,
        );
        let g_out = self.handle_saturated_result(
            as_register(truncating_div(mac.middle, 16)),
            SaturatedFlagRegisterField::ColourFifoG,
            lm,
            sf,
        );
        let b_out = self.handle_saturated_result(
            as_register(truncating_div(mac.bottom, 16)),
            SaturatedFlagRegisterField::ColourFifoB,
            lm,
            sf,
        );
        self.summarise_flags();
        self.data_registers[25] = mac.top as i32;
        self.data_registers[26] = mac.middle as i32;
        self.data_registers[27] = mac.bottom as i32;
        self.data_registers[9] = ir1 as i32;
        self.data_registers[10] = ir2 as i32;
        self.data_registers[11] = ir3 as i32;
        self.push_colour(code, r_out, g_out, b_out);
    }

    /// The light colour stage: MAC = (LCM * `ir` + BK * 0x1000) >> sf*12,
    /// flagged when `check_mac` asks for it, and the new IR vector clamped
    /// from it. Returns both.
    fn light_colour_stage(&mut self, ir: CP2Vector, sf: i32, lm: bool, check_mac: bool) -> (r: (CP2Vector, CP2Vector))
        requires
            sf == 0 || sf == 1,
            ir.small(),
        ensures
            final(self).flag() == (if check_mac {
                ir_flags(mac_flags(old(self).flag(), r.0.top, r.0.middle, r.0.bottom), r.0.top, r.0.middle, r.0.bottom, lm, sf)
            } else {
                ir_flags(old(self).flag(), r.0.top, r.0.middle, r.0.bottom, lm, sf)
            }),
            within(r.0.top, 0x10_0000_0000_0000),
            within(r.0.middle, 0x10_0000_0000_0000),
            within(r.0.bottom, 0x10_0000_0000_0000),
            -0x8000 <= r.1.top <= 0x7FFF && -0x8000 <= r.1.middle <= 0x7FFF && -0x8000 <= r.1.bottom <= 0x7FFF,
            r.0.top == light_colour_mac(old(self).control(), ir.top, ir.middle, ir.bottom, sf, 0),
            r.0.middle == light_colour_mac(old(self).control(), ir.top, ir.middle, ir.bottom, sf, 1),
            r.0.bottom == light_colour_mac(old(self).control(), ir.top, ir.middle, ir.bottom, sf, 2),
            r.1.top == ir_clamped(r.0.top, lm),
            r.1.middle == ir_clamped(r.0.middle, lm),
            r.1.bottom == ir_clamped(r.0.bottom, lm),
            final(self).data_registers == old(self).data_registers,
            final(self).condition_line == old(self).condition_line,
            old(self).flag() >= 0 ==> final(self).flag() >= 0,
            forall|i: int| 0 <= i < 31 ==> #[trigger] final(self).control_registers@[i]
                == old(self).control_registers@[i],
    {
        let light_colour_matrix = self.control_matrix(16);
        let background = self.scaled_control_vector(13);
        let product = light_colour_matrix.multiply(&ir);
        let sum = product.plus(&background);
        let mac = CP2Vector::new(shift_sf(sum.top, sf), shift_sf(sum.middle, sf), shift_sf(sum.bottom, sf));
        if check_mac {
            self.handle_unsaturated_result(mac.top, UnsaturatedFlagRegisterField::MAC1);
            self.handle_unsaturated_result(mac.middle, UnsaturatedFlagRegisterField::MAC2);
            self.handle_unsaturated_result(mac.bottom, UnsaturatedFlagRegisterField::MAC3);
        }
        let ir_out = CP2Vector::new(
            self.handle_saturated_result(as_register(mac.top), SaturatedFlagRegisterField::IR1, lm, sf),
            self.handle_saturated_result(as_register(mac.middle), SaturatedFlagRegisterField::IR2, lm, sf),
            self.handle_saturated_result(as_register(mac.bottom), SaturatedFlagRegisterField::IR3, lm, sf),
        );
        (mac, ir_out)
    }

    /// The colour products (R * IR1, G * IR2, B * IR3) << 4 of the RGBC
    /// colour with `ir`, flagged as MAC1 to MAC3.
    fn colour_products(&mut self, ir: CP2Vector, r: i64, g: i64, b: i64) -> (m: CP2Vector)
        requires
            0 <= r < 0x100 && 0 <= g < 0x100 && 0 <= b < 0x100,
            within(ir.top, 0x8000) && within(ir.middle, 0x8000) && within(ir.bottom, 0x8000),
        ensures
            final(self).flag() == mac_flags(old(self).flag(), m.top, m.middle, m.bottom),
            within(m.top, 0x1000_0000) && within(m.middle, 0x1000_0000) && within(m.bottom, 0x1000_0000),
            m.top == r * ir.top * 16 && m.middle == g * ir.middle * 16 && m.bottom == b * ir.bottom * 16,
            final(self).data_registers == old(self).data_registers,
            final(self).condition_line == old(self).condition_line,
            old(self).flag() >= 0 ==> final(self).flag() >= 0,
            forall|i: int| 0 <= i < 31 ==> #[trigger] final(self).control_registers@[i]
                == old(self).control_registers@[i],
    {
        proof {
            assert(-0x80_0000 <= r * ir.top <= 0x80_0000) by (nonlinear_arith)
                requires 0 <= r < 0x100, within(ir.top, 0x8000);
            assert(-0x80_0000 <= g * ir.middle <= 0x80_0000) by (nonlinear_arith)
                requires 0 <= g < 0x100, within(ir.middle, 0x8000);
            assert(-0x80_0000 <= b * ir.bottom <= 0x80_0000) by (nonlinear_arith)
                requires 0 <= b < 0x100, within(ir.bottom, 0x8000);
        }
        let m = CP2Vector::new(r * ir.top * 16, g * ir.middle * 16, b * ir.bottom * 16);
        self.handle_unsaturated_result(m.top, UnsaturatedFlagRegisterField::MAC1);
        self.handle_unsaturated_result(m.middle, UnsaturatedFlagRegisterField::MAC2);
        self.handle_unsaturated_result(m.bottom, UnsaturatedFlagRegisterField::MAC3);
        m
    }

    /// Interpolates a colour accumulator towards the far colour by IR0.
    fn depth_cue(&mut self, mac: CP2Vector, sf: i32) -> (r: CP2Vector)
        requires
            sf == 0 || sf == 1,
            within(mac.top, 0x100_0000_0000),
            within(mac.middle, 0x100_0000_0000),
            within(mac.bottom, 0x100_0000_0000),
        ensures
            final(self).flag() == depth_cue_flags(old(self).flag(), old(self).control(), low_lane_of(old(self).data()[8]), mac.top, mac.middle, mac.bottom, sf),
            within(r.top, 0x2_0000_0000_0000),
            within(r.middle, 0x2_0000_0000_0000),
            within(r.bottom, 0x2_0000_0000_0000),
            r.top == interpolated(mac.top, old(self).control()[21] as i64, low_lane_of(old(self).data()[8]), sf),
            r.middle == interpolated(mac.middle, old(self).control()[22] as i64, low_lane_of(old(self).data()[8]), sf),
            r.bottom == interpolated(mac.bottom, old(self).control()[23] as i64, low_lane_of(old(self).data()[8]), sf),
            final(self).data_registers == old(self).data_registers,
            final(self).condition_line == old(self).condition_line,
            old(self).flag() >= 0 ==> final(self).flag() >= 0,
            forall|i: int| 0 <= i < 31 ==> #[trigger] final(self).control_registers@[i]
                == old(self).control_registers@[i],
    {
        let ir0 = low_lane(self.data_registers[8]);
        let rfc = self.control_registers[21] as i64;
        let gfc = self.control_registers[22] as i64;
        let bfc = self.control_registers[23] as i64;
        let top = self.interpolate_component(
            mac.top,
            rfc,
            ir0,
            sf,
            SaturatedFlagRegisterField::IR1,
            UnsaturatedFlagRegisterField::MAC1,
        );
        let middle = self.interpolate_component(
            mac.middle,
            gfc,
            ir0,
            sf,
            SaturatedFlagRegisterField::IR2,
            UnsaturatedFlagRegisterField::MAC2,
        );
        let bottom = self.interpolate_component(
            mac.bottom,
            bfc,
            ir0,
            sf,
            SaturatedFlagRegisterField::IR3,
            UnsaturatedFlagRegisterField::MAC3,
        );
        CP2Vector::new(top, middle, bottom)
    }

    /// Flags the three accumulators of `mac` as MAC1 to MAC3.
    fn check_macs(&mut self, mac: CP2Vector)
        ensures
            final(self).control() == old(self).control().update(
                31,
                ((old(self).flag() | unsaturated_flag(mac.top, UnsaturatedFlagRegisterField::MAC1))
                    | unsaturated_flag(mac.middle, UnsaturatedFlagRegisterField::MAC2))
                    | unsaturated_flag(mac.bottom, UnsaturatedFlagRegisterField::MAC3),
            ),
            final(self).data_registers == old(self).data_registers,
            final(self).condition_line == old(self).condition_line,
            old(self).flag() >= 0 ==> final(self).flag() >= 0,
            old(self).flag() & 0x2_0000 != 0 ==> final(self).flag() & 0x2_0000 != 0,
            forall|i: int| 0 <= i < 31 ==> #[trigger] final(self).control_registers@[i]
                == old(self).control_registers@[i],
    {
        self.handle_unsaturated_result(mac.top, UnsaturatedFlagRegisterField::MAC1);
        self.handle_unsaturated_result(mac.middle, UnsaturatedFlagRegisterField::MAC2);
        self.handle_unsaturated_result(mac.bottom, UnsaturatedFlagRegisterField::MAC3);
    }

    /// DPCS and DPCT: depth cueing of RGBC (single) or of each colour FIFO
    /// entry (triple) towards the far colour.
    #[verifier::rlimit(80)]
    pub fn handle_common_dpc(&mut self, opcode: i32, variant: InstructionVariant)
        ensures
            final(self).dpc_done(old(self), opcode, variant),
    {
        let sf = Self::sf_bit(opcode);
        let lm = Self::lm_bit(opcode);
        let iterations: usize = match variant {
            InstructionVariant::Single => 1,
            InstructionVariant::Triple => 3,
        };
        let colour_register_index: usize = match variant {
            InstructionVariant::Single => 6,
            InstructionVariant::Triple => 20,
        };
        let mut i: usize = 0;
        while i < iterations
            invariant
                iterations <= 3,
                colour_register_index < 32,
                sf == 0 || sf == 1,
                self.gte_frame(old(self), set![9, 10, 11, 20, 21, 22, 25, 26, 27]),
                i > 0 ==> self.ir_in_range(),
                i > 0 ==> self.colour_outputs(lm_of(opcode), code_of(old(self).data()[6])),
                lm == lm_of(opcode),
                i == 1 && variant == InstructionVariant::Single ==> self.depth_cued_rgbc(old(self), sf),
                variant == InstructionVariant::Single ==> iterations == 1 && colour_register_index == 6,
                i <= iterations,
                sf == sf_of(opcode),
                i == 0 ==> self.data() == old(self).data() && forall|j: int| 0 <= j < 31 ==> #[trigger] self.control()[j] == old(self).control()[j],
                i == 0 ==> iterations > 0,
            decreases iterations - i,
        {
            self.clear_flags();
            let (r, g, b, _unused) = self.colour_bytes(colour_register_index);
            let (_r, _g, _b, code) = self.colour_bytes(6);
            let mac = CP2Vector::new(r * 0x1_0000, g * 0x1_0000, b * 0x1_0000);
            self.check_macs(mac);
            let result = self.depth_cue(mac, sf);
            self.finish_colour(result, lm, sf, code);
            i = i + 1;
        }
    }

    /// INTPL: interpolates IR1 to IR3 towards the far colour by IR0.
    pub fn handle_intpl(&mut self, opcode: i32)
        ensures
            final(self).intpl_done(old(self), opcode),
    {
        self.clear_flags();
        let sf = Self::sf_bit(opcode);
        let lm = Self::lm_bit(opcode);
        let ir = self.ir_vector();
        let (_r, _g, _b, code) = self.colour_bytes(6);
        let mac = CP2Vector::new(ir.top * 0x1000, ir.middle * 0x1000, ir.bottom * 0x1000);
        self.check_macs(mac);
        let result = self.depth_cue(mac, sf);
        self.finish_colour(result, lm, sf, code);
    }

    /// DCPL: depth cueing of the RGBC colour lit by IR1 to IR3.
    pub fn handle_dcpl(&mut self, opcode: i32)
        ensures
            final(self).dcpl_done(old(self), opcode),
    {
        self.clear_flags();
        let sf = Self::sf_bit(opcode);
        let lm = Self::lm_bit(opcode);
        let ir = self.ir_vector();
        let (r, g, b, code) = self.colour_bytes(6);
        let mac = self.colour_products(ir, r, g, b);
        let result = self.depth_cue(mac, sf);
        self.finish_colour(result, lm, sf, code);
    }

    /// CDP: colour depth cue: the light colour stage on IR1 to IR3, then the
    /// RGBC colour lit by it and depth cued.
    pub fn handle_cdp(&mut self, opcode: i32)
        ensures
            final(self).cdp_done(old(self), opcode),
    {
        self.clear_flags();
        let sf = Self::sf_bit(opcode);
        let lm = Self::lm_bit(opcode);
        let ir = self.ir_vector();
        self.colour_depth_stage(ir, sf, lm);
    }

    /// The common tail of CDP and NCDS: light colour stage on `ir`, colour
    /// products, depth cue, and the colour FIFO push.
    fn colour_depth_stage(&mut self, ir: CP2Vector, sf: i32, lm: bool)
        requires
            old(self).flag() >= 0,
            sf == 0 || sf == 1,
            ir.small(),
        ensures
            final(self).flag() == summarised(colour_depth_flags(old(self).control(), old(self).data(), ir.top, ir.middle, ir.bottom, sf, lm, old(self).flag())),
            final(self).gte_frame(old(self), set![9, 10, 11, 20, 21, 22, 25, 26, 27]),
            final(self).ir_in_range(),
            final(self).colour_outputs(lm, code_of(old(self).data()[6])),
            final(self).colour_depth_cued(old(self), ir.top, ir.middle, ir.bottom, sf, lm),
    {
        let (r, g, b, code) = self.colour_bytes(6);
        let (_mac, lit) = self.light_colour_stage(ir, sf, lm, true);
        let mac = self.colour_products(lit, r, g, b);
        let result = self.depth_cue(mac, sf);
        self.finish_colour(result, lm, sf, code);
    }

    /// The common tail of CC and NCCS: light colour stage on `ir`, colour
    /// products scaled down, and the colour FIFO push.
    fn colour_stage(&mut self, ir: CP2Vector, sf: i32, lm: bool)
        requires
            old(self).flag() >= 0,
            sf == 0 || sf == 1,
            ir.small(),
        ensures
            final(self).flag() == summarised(colour_colour_flags(old(self).control(), old(self).data(), ir.top, ir.middle, ir.bottom, sf, lm, old(self).flag())),
            final(self).gte_frame(old(self), set![9, 10, 11, 20, 21, 22, 25, 26, 27]),
            final(self).ir_in_range(),
            final(self).colour_outputs(lm, code_of(old(self).data()[6])),
            final(self).coloured(old(self), ir.top, ir.middle, ir.bottom, sf, lm),
    {
        let (r, g, b, code) = self.colour_bytes(6);
        let (_mac, lit) = self.light_colour_stage(ir, sf, lm, true);
        let products = self.colour_products(lit, r, g, b);
        let mac = CP2Vector::new(
            shift_sf(products.top, sf),
            shift_sf(products.middle, sf),
            shift_sf(products.bottom, sf),
        );
        self.check_macs(mac);
        self.finish_colour(mac, lm, sf, code);
    }

    /// CC: colour colour: the light colour stage on IR1 to IR3, then the RGBC
    /// colour lit by it.
    pub fn handle_cc(&mut self, opcode: i32)
        ensures
            final(self).cc_done(old(self), opcode),
    {
        self.clear_flags();
        let sf = Self::sf_bit(opcode);
        let lm = Self::lm_bit(opcode);
        let ir = self.ir_vector();
        self.colour_stage(ir, sf, lm);
    }

    /// The light stage of the normal colour operations: IR = clamp((LLM * V) >> sf*12).
    fn light_stage(&mut self, i: usize, sf: i32, lm: bool) -> (r: CP2Vector)
        requires
            sf == 0 || sf == 1,
            i < 3,
        ensures
            r.small(),
            -0x8000 <= r.top <= 0x7FFF && -0x8000 <= r.middle <= 0x7FFF && -0x8000 <= r.bottom <= 0x7FFF,
            r.top == light_ir(old(self).control(), old(self).data(), i as int, sf, lm, 0),
            r.middle == light_ir(old(self).control(), old(self).data(), i as int, sf, lm, 1),
            r.bottom == light_ir(old(self).control(), old(self).data(), i as int, sf, lm, 2),
            final(self).data_registers == old(self).data_registers,
            final(self).condition_line == old(self).condition_line,
            old(self).flag() >= 0 ==> final(self).flag() >= 0,
            forall|j: int| 0 <= j < 31 ==> #[trigger] final(self).control_registers@[j]
                == old(self).control_registers@[j],
    {
        let light_matrix = self.control_matrix(8);
        let v = self.input_vector(i);
        let product = light_matrix.multiply(&v);
        let mac = CP2Vector::new(shift_sf(product.top, sf), shift_sf(product.middle, sf), shift_sf(product.bottom, sf));
        CP2Vector::new(
            self.handle_saturated_result(as_register(mac.top), SaturatedFlagRegisterField::IR1, lm, sf),
            self.handle_saturated_result(as_register(mac.middle), SaturatedFlagRegisterField::IR2, lm, sf),
            self.handle_saturated_result(as_register(mac.bottom), SaturatedFlagRegisterField::IR3, lm, sf),
        )
    }

    /// NCS and NCT: normal colour of V0 (single) or V0 to V2 (triple).
    #[verifier::rlimit(80)]
    pub fn handle_common_nc(&mut self, opcode: i32, variant: InstructionVariant)
        ensures
            final(self).nc_done(old(self), opcode, variant),
    {
        let sf = Self::sf_bit(opcode);
        let lm = Self::lm_bit(opcode);
        let (_r, _g, _b, code) = self.colour_bytes(6);
        let iterations: usize = match variant {
            InstructionVariant::Single => 1,
            InstructionVariant::Triple => 3,
        };
        let mut i: usize = 0;
        while i < iterations
            invariant
                iterations <= 3,
                0 <= code < 0x100,
                code == code_of(old(self).data()[6]),
                sf == 0 || sf == 1,
                self.gte_frame(old(self), set![9, 10, 11, 20, 21, 22, 25, 26, 27]),
                i > 0 ==> self.ir_in_range(),
                i > 0 ==> self.colour_outputs(lm_of(opcode), code_of(old(self).data()[6])),
                lm == lm_of(opcode),
                i == 1 && variant == InstructionVariant::Single ==> self.normal_coloured(old(self), sf, lm),
                variant == InstructionVariant::Single ==> iterations == 1,
                i <= iterations,
                sf == sf_of(opcode),
                i == 0 ==> self.data() == old(self).data() && forall|j: int| 0 <= j < 31 ==> #[trigger] self.control()[j] == old(self).control()[j],
                i == 0 ==> iterations > 0,
            decreases iterations - i,
        {
            self.clear_flags();
            let ir = self.light_stage(i, sf, lm);
            let (mac, _lit) = self.light_colour_stage(ir, sf, lm, false);
            self.finish_colour(mac, lm, sf, code);
            i = i + 1;
        }
    }

    /// NCDS and NCDT: normal colour with depth cueing, of V0 (single) or V0
    /// to V2 (triple).
    #[verifier::rlimit(80)]
    pub fn handle_common_ncd(&mut self, opcode: i32, variant: InstructionVariant)
        ensures
            final(self).ncd_done(old(self), opcode, variant),
    {
        let sf = Self::sf_bit(opcode);
        let lm = Self::lm_bit(opcode);
        let iterations: usize = match variant {
            InstructionVariant::Single => 1,
            InstructionVariant::Triple => 3,
        };
        let mut i: usize = 0;
        while i < iterations
            invariant
                iterations <= 3,
                sf == 0 || sf == 1,
                self.gte_frame(old(self), set![9, 10, 11, 20, 21, 22, 25, 26, 27]),
                i > 0 ==> self.ir_in_range(),
                i > 0 ==> self.colour_outputs(lm_of(opcode), code_of(old(self).data()[6])),
                lm == lm_of(opcode),
                i == 1 && variant == InstructionVariant::Single ==> self.colour_depth_cued(old(self), light_ir(old(self).control(), old(self).data(), 0, sf, lm, 0), light_ir(old(self).control(), old(self).data(), 0, sf, lm, 1), light_ir(old(self).control(), old(self).data(), 0, sf, lm, 2), sf, lm),
                variant == InstructionVariant::Single ==> iterations == 1,
                i <= iterations,
                sf == sf_of(opcode),
                i == 0 ==> self.data() == old(self).data() && forall|j: int| 0 <= j < 31 ==> #[trigger] self.control()[j] == old(self).control()[j],
                i == 0 ==> iterations > 0,
            decreases iterations - i,
        {
            self.clear_flags();
            let ir = self.light_stage(i, sf, lm);
            self.colour_depth_stage(ir, sf, lm);
            i = i + 1;
        }
    }

    /// NCCS and NCCT: normal colour colour, of V0 (single) or V0 to V2 (triple).
    #[verifier::rlimit(80)]
    pub fn handle_common_ncc(&mut self, opcode: i32, variant: InstructionVariant)
        ensures
            final(self).ncc_done(old(self), opcode, variant),
    {
        let sf = Self::sf_bit(opcode);
        let lm = Self::lm_bit(opcode);
        let iterations: usize = match variant {
            InstructionVariant::Single => 1,
            InstructionVariant::Triple => 3,
        };
        let mut i: usize = 0;
        while i < iterations
            invariant
                iterations <= 3,
                sf == 0 || sf == 1,
                self.gte_frame(old(self), set![9, 10, 11, 20, 21, 22, 25, 26, 27]),
                i > 0 ==> self.ir_in_range(),
                i > 0 ==> self.colour_outputs(lm_of(opcode), code_of(old(self).data()[6])),
                lm == lm_of(opcode),
                i == 1 && variant == InstructionVariant::Single ==> self.coloured(old(self), light_ir(old(self).control(), old(self).data(), 0, sf, lm, 0), light_ir(old(self).control(), old(self).data(), 0, sf, lm, 1), light_ir(old(self).control(), old(self).data(), 0, sf, lm, 2), sf, lm),
                variant == InstructionVariant::Single ==> iterations == 1,
                i <= iterations,
                sf == sf_of(opcode),
                i == 0 ==> self.data() == old(self).data() && forall|j: int| 0 <= j < 31 ==> #[trigger] self.control()[j] == old(self).control()[j],
                i == 0 ==> iterations > 0,
            decreases iterations - i,
        {
            self.clear_flags();
            let ir = self.light_stage(i, sf, lm);
            self.colour_stage(ir, sf, lm);
            i = i + 1;
        }
    }

    /// GPF: general purpose interpolation, MAC = (IR * IR0) >> sf*12.
    pub fn handle_gpf(&mut self, opcode: i32)
        ensures
            final(self).gpf_done(old(self), opcode),
    {
        self.clear_flags();
        let sf = Self::sf_bit(opcode);
        let lm = Self::lm_bit(opcode);
        let ir0 = low_lane(self.data_registers[8]);
        let ir = self.ir_vector();
        let mac = CP2Vector::new(
            shift_sf(times(ir.top, ir0), sf),
            shift_sf(times(ir.middle, ir0), sf),
            shift_sf(times(ir.bottom, ir0), sf),
        );
        self.check_macs(mac);
        let (_r, _g, _b, code) = self.colour_bytes(6);
        self.finish_colour(mac, lm, sf, code);
    }

    /// GPL: general purpose interpolation with base, MAC = (IR * IR0 +
    /// (MAC << sf*12)) >> sf*12.
    pub fn handle_gpl(&mut self, opcode: i32)
        ensures
            final(self).gpl_done(old(self), opcode),
    {
        self.clear_flags();
        let sf = Self::sf_bit(opcode);
        let lm = Self::lm_bit(opcode);
        let scale: i64 = if sf == 1 {
            0x1000
        } else {
            1
        };
        let base = CP2Vector::new(
            (self.data_registers[25] as i64) * scale,
            (self.data_registers[26] as i64) * scale,
            (self.data_registers[27] as i64) * scale,
        );
        self.check_macs(base);
        let ir0 = low_lane(self.data_registers[8]);
        let ir = self.ir_vector();
        let mac = CP2Vector::new(
            shift_sf(times(ir.top, ir0) + base.top, sf),
            shift_sf(times(ir.middle, ir0) + base.middle, sf),
            shift_sf(times(ir.bottom, ir0) + base.bottom, sf),
        );
        self.check_macs(mac);
        let (_r, _g, _b, code) = self.colour_bytes(6);
        self.finish_colour(mac, lm, sf, code);
    }

    /// OP: the outer product of the rotation matrix's diagonal with IR1 to IR3.
    pub fn handle_op(&mut self, opcode: i32)
        ensures
            final(self).op_done(old(self), opcode),
    {
        self.clear_flags();
        let sf = Self::sf_bit(opcode);
        let lm = Self::lm_bit(opcode);
        let ir = self.ir_vector();
        let d1 = low_lane(self.control_registers[0]);
        let d2 = low_lane(self.control_registers[2]);
        let d3 = low_lane(self.control_registers[4]);
        let t1 = shift_sf(times(ir.bottom, d2) - times(ir.middle, d3), sf);
        let t2 = shift_sf(times(ir.top, d3) - times(ir.bottom, d1), sf);
        let t3 = shift_sf(times(ir.middle, d1) - times(ir.top, d2), sf);
        self.data_registers[25] = t1 as i32;
        self.data_registers[26] = t2 as i32;
        self.data_registers[27] = t3 as i32;
        self.check_macs(CP2Vector::new(t1, t2, t3));
        let ir1 = self.handle_saturated_result(as_register(t1), SaturatedFlagRegisterField::IR1, lm, sf);
        let ir2 = self.handle_saturated_result(as_register(t2), SaturatedFlagRegisterField::IR2, lm, sf);
        let ir3 = self.handle_saturated_result(as_register(t3), SaturatedFlagRegisterField::IR3, lm, sf);
        self.data_registers[9] = ir1 as i32;
        self.data_registers[10] = ir2 as i32;
        self.data_registers[11] = ir3 as i32;
        self.summarise_flags();
        proof {
            assert(self.data() =~= old(self).data().update(25, t1 as i32).update(26, t2 as i32).update(
                27,
                t3 as i32,
            ).update(9, ir1 as i32).update(10, ir2 as i32).update(11, ir3 as i32));
        }
    }

    /// NCLIP: MAC0 = the doubled signed area of the screen triangle SXY0,
    /// SXY1, SXY2.
    pub fn handle_nclip(&mut self, _opcode: i32)
        ensures
            final(self).nclip_done(old(self), _opcode),
    {
        self.clear_flags();
        let sx0 = low_lane(self.data_registers[12]);
        let sy0 = high_lane(self.data_registers[12]);
        let sx1 = low_lane(self.data_registers[13]);
        let sy1 = high_lane(self.data_registers[13]);
        let sx2 = low_lane(self.data_registers[14]);
        let sy2 = high_lane(self.data_registers[14]);
        let mac0 = times(sx0, sy1) + times(sx1, sy2) + times(sx2, sy0) - times(sx0, sy2) - times(sx1, sy0)
            - times(sx2, sy1);
        self.handle_unsaturated_result(mac0, UnsaturatedFlagRegisterField::MAC0);
        self.summarise_flags();
        self.data_registers[24] = mac0 as i32;
        proof {
            assert(self.data() =~= old(self).data().update(24, mac0 as i32));
        }
    }

    /// `self` is `o` after AVSZ3 (`four` false) or AVSZ4 (`four` true).
    pub open spec fn averaged_z(&self, o: &CP2, four: bool) -> bool {
        let d = o.data();
        let zsf = low_lane_of(o.control()[if four { 30int } else { 29int }]);
        let sum = (if four { d[16] & 0xFFFF } else { 0 }) + (d[17] & 0xFFFF) + (d[18] & 0xFFFF) + (d[19] & 0xFFFF);
        let mac0 = (zsf * sum) as i64;
        let quotient = (if mac0 < 0 { -((-mac0) / 0x1000) } else { mac0 / 0x1000 }) as i64;
        &&& self.data() == d.update(24, mac0 as i32).update(
            7,
            clamp((quotient as i32) as i64, 0i64, 0xFFFFi64) as i32,
        )
        &&& self.flag() == summarised(
            (0i32 | unsaturated_flag(mac0, UnsaturatedFlagRegisterField::MAC0)) | saturated_flag(
                (quotient as i32) as i64,
                SaturatedFlagRegisterField::SZ3,
                false,
                0,
            ),
        )
        &&& self.gte_frame(o, set![7, 24])
    }

    /// AVSZ3 and AVSZ4: MAC0 = ZSF3 * (SZ1 + SZ2 + SZ3), or ZSF4 * (SZ0 +
    /// SZ1 + SZ2 + SZ3), and OTZ = MAC0 / 0x1000 clamped to 16 bits.
    fn handle_average_z(&mut self, four: bool)
        ensures
            final(self).averaged_z(old(self), four),
            final(self).flag_summarised(),
    {
        self.clear_flags();
        let zsf = if four {
            low_lane(self.control_registers[30])
        } else {
            low_lane(self.control_registers[29])
        };
        let sz0 = if four {
            (self.data_registers[16] & 0xFFFF) as i64
        } else {
            0
        };
        let a = self.data_registers[17];
        let b = self.data_registers[18];
        let c = self.data_registers[19];
        let e = self.data_registers[16];
        assert(0 <= a & 0xFFFF <= 0xFFFF && 0 <= b & 0xFFFF <= 0xFFFF && 0 <= c & 0xFFFF <= 0xFFFF
            && 0 <= e & 0xFFFF <= 0xFFFF) by (bit_vector);
        let sum = sz0 + (a & 0xFFFF) as i64 + (b & 0xFFFF) as i64 + (c & 0xFFFF) as i64;
        let mac0 = times(zsf, sum);
        self.handle_unsaturated_result(mac0, UnsaturatedFlagRegisterField::MAC0);
        let otz = self.handle_saturated_result(
            as_register(truncating_div(mac0, 0x1000)),
            SaturatedFlagRegisterField::SZ3,
            false,
            0,
        );
        self.summarise_flags();
        self.data_registers[24] = mac0 as i32;
        self.data_registers[7] = otz as i32;
    }

    /// MVMVA: multiplies a chosen matrix by a chosen vector and adds a chosen
    /// translation, as the opcode's mx, v and cv fields select.
    #[verifier::rlimit(60)]
    pub fn handle_mvmva(&mut self, opcode: i32)
        ensures
            final(self).mvmva_done(old(self), opcode),
    {
        let sf = Self::sf_bit(opcode);
        let lm = Self::lm_bit(opcode);
        let t_vec = opcode.logical_rshift(13) & 0x3;
        let m_vec = opcode.logical_rshift(15) & 0x3;
        let m_matrix = opcode.logical_rshift(17) & 0x3;
        proof {
            let (x, y, z) = (logical_rshift_32(opcode, 13), logical_rshift_32(opcode, 15), logical_rshift_32(opcode, 17));
            assert(0 <= x & 0x3 <= 3 && 0 <= y & 0x3 <= 3 && 0 <= z & 0x3 <= 3) by (bit_vector);
        }
        let translation = if t_vec == 0 {
            self.scaled_control_vector(5)
        } else if t_vec == 1 {
            self.scaled_control_vector(13)
        } else if t_vec == 2 {
            self.scaled_control_vector(21)
        } else {
            CP2Vector::new(0, 0, 0)
        };
        let multiply_vector = if m_vec == 0 {
            self.input_vector(0)
        } else if m_vec == 1 {
            self.input_vector(1)
        } else if m_vec == 2 {
            self.input_vector(2)
        } else {
            self.ir_vector()
        };
        let multiply_matrix = if m_matrix == 0 {
            self.control_matrix(0)
        } else if m_matrix == 1 {
            self.control_matrix(8)
        } else if m_matrix == 2 {
            self.control_matrix(16)
        } else {
            let rt13 = low_lane(self.control_registers[1]);
            let rt22 = low_lane(self.control_registers[2]);
            CP2Matrix::new(
                [-0x60, 0x60, low_lane(self.data_registers[8])],
                [rt13, rt13, rt13],
                [rt22, rt22, rt22],
            )
        };
        proof {
            let c = old(self).control();
            let d = old(self).data();
            assert(multiply_vector.top == mvmva_vector(d, m_vec, 0));
            assert(multiply_vector.middle == mvmva_vector(d, m_vec, 1));
            assert(multiply_vector.bottom == mvmva_vector(d, m_vec, 2));
            assert(translation.top == mvmva_translation(c, t_vec, 0));
            assert(translation.middle == mvmva_translation(c, t_vec, 1));
            assert(translation.bottom == mvmva_translation(c, t_vec, 2));
            assert(multiply_matrix.top_row@[0] == mvmva_matrix(c, d, m_matrix, 0, 0));
            assert(multiply_matrix.top_row@[1] == mvmva_matrix(c, d, m_matrix, 0, 1));
            assert(multiply_matrix.top_row@[2] == mvmva_matrix(c, d, m_matrix, 0, 2));
            assert(multiply_matrix.middle_row@[0] == mvmva_matrix(c, d, m_matrix, 1, 0));
            assert(multiply_matrix.middle_row@[1] == mvmva_matrix(c, d, m_matrix, 1, 1));
            assert(multiply_matrix.middle_row@[2] == mvmva_matrix(c, d, m_matrix, 1, 2));
            assert(multiply_matrix.bottom_row@[0] == mvmva_matrix(c, d, m_matrix, 2, 0));
            assert(multiply_matrix.bottom_row@[1] == mvmva_matrix(c, d, m_matrix, 2, 1));
            assert(multiply_matrix.bottom_row@[2] == mvmva_matrix(c, d, m_matrix, 2, 2));
        }
        self.clear_flags();
        let result = if t_vec != 2 {
            let product = multiply_matrix.multiply(&multiply_vector);
            product.plus(&translation)
        } else {
            let z = multiply_vector.bottom;
            CP2Vector::new(
                times(multiply_matrix.top_row[2], z),
                times(multiply_matrix.middle_row[2], z),
                times(multiply_matrix.bottom_row[2], z),
            )
        };
        let mac = CP2Vector::new(shift_sf(result.top, sf), shift_sf(result.middle, sf), shift_sf(result.bottom, sf));
        self.data_registers[25] = mac.top as i32;
        self.data_registers[26] = mac.middle as i32;
        self.data_registers[27] = mac.bottom as i32;
        self.check_macs(mac);
        let ir1 = self.handle_saturated_result(as_register(mac.top), SaturatedFlagRegisterField::IR1, lm, sf);
        let ir2 = self.handle_saturated_result(as_register(mac.middle), SaturatedFlagRegisterField::IR2, lm, sf);
        let ir3 = self.handle_saturated_result(as_register(mac.bottom), SaturatedFlagRegisterField::IR3, lm, sf);
        self.data_registers[9] = ir1 as i32;
        self.data_registers[10] = ir2 as i32;
        self.data_registers[11] = ir3 as i32;
        self.summarise_flags();
    }

    /// RTPS and RTPT: perspective transformation of V0 (single) or V0 to V2
    /// (triple): rotation and translation into MAC1 to MAC3 and IR1 to IR3,
    /// the depth pushed onto the SZ FIFO, the projected screen position onto
    /// the SXY FIFO, and the depth cueing factor into MAC0 and IR0.
    #[verifier::rlimit(60)]
    pub fn handle_common_rtp(&mut self, opcode: i32, variant: InstructionVariant)
        ensures
            final(self).rtp_done(old(self), opcode, variant),
    {
        let sf = Self::sf_bit(opcode);
        let translation = self.scaled_control_vector(5);
        let rotation = self.control_matrix(0);
        let ofx = self.control_registers[24] as i64;
        let ofy = self.control_registers[25] as i64;
        let h_source = self.control_registers[26];
        assert(0 <= h_source & 0xFFFF <= 0xFFFF) by (bit_vector);
        let h = (h_source & 0xFFFF) as i64;
        let dqa = low_lane(self.control_registers[27]);
        let dqb = self.control_registers[28] as i64;
        let iterations: usize = match variant {
            InstructionVariant::Single => 1,
            InstructionVariant::Triple => 3,
        };
        let mut i: usize = 0;
        while i < iterations
            invariant
                iterations <= 3,
                sf == 0 || sf == 1,
                0 <= h <= 0xFFFF,
                rotation.small(),
                translation.summable(),
                within(ofx, 0x8000_0000) && within(ofy, 0x8000_0000) && within(dqb, 0x8000_0000),
                within(dqa, 0x8000),
                self.gte_frame(
                    old(self),
                    set![8, 9, 10, 11, 12, 13, 14, 15, 16, 17, 18, 19, 24, 25, 26, 27],
                ),
                i > 0 ==> self.data()[15] == self.data()[14],
                i > 0 ==> 0 <= self.data()[19] <= 0xFFFF,
                i > 0 ==> 0 <= self.data()[8] <= 0x1000,
                i == 1 ==> self.fifos_pushed_once(old(self)),
                i == 1 ==> self.depth_projected(old(self), sf),
                h == (old(self).control()[26] & 0xFFFF) && dqa == low_lane_of(old(self).control()[27]) && dqb == old(self).control()[28],
                i == 1 ==> self.rtp_projected(old(self), sf),
                ofx == old(self).control()[24] && ofy == old(self).control()[25],
                i == 1 ==> self.rotated_once(old(self), sf),
                sf == sf_of(opcode),
                forall|col: int|
                    0 <= col < 3 ==> #[trigger] rotation.top_row@[col] == lane_matrix_entry(
                        old(self).control(),
                        0,
                        0,
                        col,
                    ) && rotation.middle_row@[col] == lane_matrix_entry(old(self).control(), 0, 1, col)
                        && rotation.bottom_row@[col] == lane_matrix_entry(old(self).control(), 0, 2, col),
                translation.top == old(self).control()[5] * 0x1000,
                translation.middle == old(self).control()[6] * 0x1000,
                translation.bottom == old(self).control()[7] * 0x1000,
                variant == InstructionVariant::Single ==> iterations == 1,
                i > 0 ==> self.flag() >= 0,
                i <= iterations,
                i == 0 ==> self.data() == old(self).data(),
                i > 0 ==> self.ir_follows_mac(false),
                i > 0 ==> self.ir_in_range(),
                i == 0 ==> iterations > 0,
            decreases iterations - i,
        {
            self.clear_flags();
            let v = self.input_vector(i);
            let product = rotation.multiply(&v);
            let sum = product.plus(&translation);
            let mac1 = shift_sf(sum.top, sf);
            let mac2 = shift_sf(sum.middle, sf);
            let mac3 = shift_sf(sum.bottom, sf);
            self.check_macs(CP2Vector::new(mac1, mac2, mac3));
            let ir1 = self.handle_saturated_result(as_register(mac1), SaturatedFlagRegisterField::IR1, false, sf);
            let ir2 = self.handle_saturated_result(as_register(mac2), SaturatedFlagRegisterField::IR2, false, sf);
            let ir3 = self.handle_saturated_result(
                as_register(mac3),
                SaturatedFlagRegisterField::IR3Quirk,
                false,
                sf,
            );
            self.data_registers[25] = mac1 as i32;
            self.data_registers[26] = mac2 as i32;
            self.data_registers[27] = mac3 as i32;
            self.data_registers[9] = ir1 as i32;
            self.data_registers[10] = ir2 as i32;
            self.data_registers[11] = ir3 as i32;
            self.data_registers[16] = self.data_registers[17];
            self.data_registers[17] = self.data_registers[18];
            self.data_registers[18] = self.data_registers[19];
            let sz3 = self.handle_saturated_result(
                as_register(shift_sf(mac3, 1 - sf)),
                SaturatedFlagRegisterField::SZ3,
                false,
                sf,
            );
            self.data_registers[19] = sz3 as i32;
            let division_result = if h < sz3 * 2 {
                unr_divide(h, sz3)
            } else {
                let flag = self.control_registers[31];
                assert((flag >= 0 ==> flag | 0x2_0000 >= 0) && (flag | 0x2_0000) & 0x2_0000 != 0)
                    by (bit_vector);
                self.control_registers[31] = flag | 0x2_0000;
                0x1_FFFF
            };
            proof {
                if i == 0 {
                    let c = old(self).control();
                    let d = old(self).data();
                    let shift = (sf * 12) as u64;
                    assert(mac1 == (rtp_sum(c, d, 0) as i64) >> shift);
                    assert(ir1 == ir_clamped((rtp_sum(c, d, 0) as i64) >> shift, false));
                    assert(ir2 == ir_clamped((rtp_sum(c, d, 1) as i64) >> shift, false));
                    assert(sz3 == rtp_sz3(c, d, sf));
                    assert(division_result == (if (h as int) < 2 * sz3 {
                        unr_quotient(h as int, sz3 as int)
                    } else {
                        0x1_FFFF
                    }));
                }
            }
            let sx_mac = times(ir1, division_result) + ofx;
            self.handle_unsaturated_result(sx_mac, UnsaturatedFlagRegisterField::MAC0);
            assert(0 <= sx_mac & 0xFFFF_FFFF <= 0xFFFF_FFFF) by (bit_vector);
            let sx_wrapped = (sx_mac & 0xFFFF_FFFF).sign_extend(31);
            proof {
                lemma_sign_extend_31(sx_mac & 0xFFFF_FFFF);
            }
            let sx2 = self.handle_saturated_result(
                as_register(truncating_div(sx_wrapped, 0x1_0000)),
                SaturatedFlagRegisterField::SX2,
                false,
                sf,
            );
            let sy_mac = times(ir2, division_result) + ofy;
            self.handle_unsaturated_result(sy_mac, UnsaturatedFlagRegisterField::MAC0);
            assert(0 <= sy_mac & 0xFFFF_FFFF <= 0xFFFF_FFFF) by (bit_vector);
            let sy_wrapped = (sy_mac & 0xFFFF_FFFF).sign_extend(31);
            proof {
                lemma_sign_extend_31(sy_mac & 0xFFFF_FFFF);
            }
            let sy2 = self.handle_saturated_result(
                as_register(truncating_div(sy_wrapped, 0x1_0000)),
                SaturatedFlagRegisterField::SY2,
                false,
                sf,
            );
            let depth_mac = times(dqa, division_result) + dqb;
            self.handle_unsaturated_result(depth_mac, UnsaturatedFlagRegisterField::MAC0);
            let mac0 = depth_mac & 0xFFFF_FFFF;
            assert(0 <= depth_mac & 0xFFFF_FFFF <= 0xFFFF_FFFF) by (bit_vector);
            let ir0 = self.handle_saturated_result(
                as_register(truncating_div(mac0, 0x1000)),
                SaturatedFlagRegisterField::IR0,
                false,
                sf,
            );
            self.data_registers[12] = self.data_registers[13];
            self.data_registers[13] = self.data_registers[14];
            let packed = (((sy2 as i32) & 0xFFFF) << 16) | ((sx2 as i32) & 0xFFFF);
            self.data_registers[14] = packed;
            self.data_registers[15] = packed;
            self.data_registers[24] = mac0 as i32;
            self.data_registers[8] = ir0 as i32;
            i = i + 1;
        }
        self.summarise_flags();
    }

    /// AVSZ3: the average of three Z values (5 cycles).
    pub fn handle_avsz3(&mut self, _opcode: i32)
        ensures
            final(self).avsz3_done(old(self), _opcode),
    {
        self.handle_average_z(false);
    }

    /// AVSZ4: the average of four Z values (6 cycles).
    pub fn handle_avsz4(&mut self, _opcode: i32)
        ensures
            final(self).avsz4_done(old(self), _opcode),
    {
        self.handle_average_z(true);
    }

    /// Runs the GTE operation that `opcode`'s low six bits select and returns
    /// the cycles it takes; an unknown operation does nothing and takes none.
    #[verifier::rlimit(60)]
    pub fn gte_function(&mut self, opcode: i32) -> (r: i32)
        ensures
            final(self).gte_done(old(self), opcode),
            r == gte_cycles(opcode & 0x3F),
            r == 0 ==> *final(self) == *old(self),
            r != 0 ==> final(self).flag_summarised(),
            opcode & 0x3F == 0x01 ==> final(self).rtp_done(old(self), opcode, InstructionVariant::Single),
            opcode & 0x3F == 0x06 ==> final(self).nclip_done(old(self), opcode),
            opcode & 0x3F == 0x0C ==> final(self).op_done(old(self), opcode),
            opcode & 0x3F == 0x10 ==> final(self).dpc_done(old(self), opcode, InstructionVariant::Single),
            opcode & 0x3F == 0x11 ==> final(self).intpl_done(old(self), opcode),
            opcode & 0x3F == 0x12 ==> final(self).mvmva_done(old(self), opcode),
            opcode & 0x3F == 0x13 ==> final(self).ncd_done(old(self), opcode, InstructionVariant::Single),
            opcode & 0x3F == 0x14 ==> final(self).cdp_done(old(self), opcode),
            opcode & 0x3F == 0x16 ==> final(self).ncd_done(old(self), opcode, InstructionVariant::Triple),
            opcode & 0x3F == 0x1B ==> final(self).ncc_done(old(self), opcode, InstructionVariant::Single),
            opcode & 0x3F == 0x1C ==> final(self).cc_done(old(self), opcode),
            opcode & 0x3F == 0x1E ==> final(self).nc_done(old(self), opcode, InstructionVariant::Single),
            opcode & 0x3F == 0x20 ==> final(self).nc_done(old(self), opcode, InstructionVariant::Triple),
            opcode & 0x3F == 0x28 ==> final(self).sqr_done(old(self), opcode),
            opcode & 0x3F == 0x29 ==> final(self).dcpl_done(old(self), opcode),
            opcode & 0x3F == 0x2A ==> final(self).dpc_done(old(self), opcode, InstructionVariant::Triple),
            opcode & 0x3F == 0x2D ==> final(self).avsz3_done(old(self), opcode),
            opcode & 0x3F == 0x2E ==> final(self).avsz4_done(old(self), opcode),
            opcode & 0x3F == 0x30 ==> final(self).rtp_done(old(self), opcode, InstructionVariant::Triple),
            opcode & 0x3F == 0x3D ==> final(self).gpf_done(old(self), opcode),
            opcode & 0x3F == 0x3E ==> final(self).gpl_done(old(self), opcode),
            opcode & 0x3F == 0x3F ==> final(self).ncc_done(old(self), opcode, InstructionVariant::Triple),
            final(self).condition_line == old(self).condition_line,
            forall|i: int| 0 <= i < 31 ==> #[trigger] final(self).control_registers@[i]
                == old(self).control_registers@[i],
    {
        let function = opcode & 0x3F;
        if function == 0x01 {
            self.handle_common_rtp(opcode, InstructionVariant::Single);
            15
        } else if function == 0x06 {
            self.handle_nclip(opcode);
            8
        } else if function == 0x0C {
            self.handle_op(opcode);
            6
        } else if function == 0x10 {
            self.handle_common_dpc(opcode, InstructionVariant::Single);
            8
        } else if function == 0x11 {
            self.handle_intpl(opcode);
            8
        } else if function == 0x12 {
            self.handle_mvmva(opcode);
            8
        } else if function == 0x13 {
            self.handle_common_ncd(opcode, InstructionVariant::Single);
            19
        } else if function == 0x14 {
            self.handle_cdp(opcode);
            13
        } else if function == 0x16 {
            self.handle_common_ncd(opcode, InstructionVariant::Triple);
            44
        } else if function == 0x1B {
            self.handle_common_ncc(opcode, InstructionVariant::Single);
            17
        } else if function == 0x1C {
            self.handle_cc(opcode);
            11
        } else if function == 0x1E {
            self.handle_common_nc(opcode, InstructionVariant::Single);
            14
        } else if function == 0x20 {
            self.handle_common_nc(opcode, InstructionVariant::Triple);
            30
        } else if function == 0x28 {
            self.handle_sqr(opcode);
            5
        } else if function == 0x29 {
            self.handle_dcpl(opcode);
            8
        } else if function == 0x2A {
            self.handle_common_dpc(opcode, InstructionVariant::Triple);
            17
        } else if function == 0x2D {
            self.handle_avsz3(opcode);
            5
        } else if function == 0x2E {
            self.handle_avsz4(opcode);
            6
        } else if function == 0x30 {
            self.handle_common_rtp(opcode, InstructionVariant::Triple);
            23
        } else if function == 0x3D {
            self.handle_gpf(opcode);
            5
        } else if function == 0x3E {
            self.handle_gpl(opcode);
            5
        } else if function == 0x3F {
            self.handle_common_ncc(opcode, InstructionVariant::Triple);
            39
        } else {
            0
        }
    }
}

} // verus!
