//! The System Control Co-processor: status and cause registers, address
//! translation without a TLB, privilege and cache-isolation checks.

use vstd::prelude::*;
use crate::utility::{CustomInteger, logical_rshift_32};

verus! {

/// Index of the Status register.
pub const STATUS: i32 = 12;

/// Index of the Cause register.
pub const CAUSE: i32 = 13;

/// Bits of Status that read back; the others read as zero.
pub const STATUS_READ_MASK: i32 = 0xF27F_FF3Fu32 as i32;

/// Bits of Cause that read back; the others read as zero.
pub const CAUSE_READ_MASK: i32 = 0xB000_FF7Cu32 as i32;

/// Bits of Status that a plain write may change.
pub const STATUS_WRITE_MASK: i32 = 0xF24B_FF3Fu32 as i32;

/// Bits of Status that a plain write keeps.
pub const STATUS_KEEP_MASK: i32 = 0x0DB4_00C0;

/// Bits of Cause that a plain write may change.
pub const CAUSE_WRITE_MASK: i32 = 0x0000_0300;

/// Bits of Cause that a plain write keeps.
pub const CAUSE_KEEP_MASK: i32 = 0xFFFF_FCFFu32 as i32;

/// The value that reading register `reg` gives, from the stored registers.
pub open spec fn read_value(regs: Seq<i32>, reg: int) -> i32 {
    if reg == 12 {
        regs[12] & STATUS_READ_MASK
    } else if reg == 13 {
        regs[13] & CAUSE_READ_MASK
    } else if reg == 15 {
        2
    } else if reg == 1 || reg == 8 || reg == 14 {
        regs[reg]
    } else {
        0
    }
}

/// What register `reg` holds after writing `value` over `current`.
pub open spec fn written_value(reg: int, current: i32, value: i32, write_override: bool) -> i32 {
    if write_override {
        value
    } else if reg == 12 {
        (value & STATUS_WRITE_MASK) | (current & STATUS_KEEP_MASK)
    } else if reg == 13 {
        (value & CAUSE_WRITE_MASK) | (current & CAUSE_KEEP_MASK)
    } else {
        value
    }
}

/// The Status value that RFE leaves: the previous and old mode bit pairs
/// move down into the current and previous ones.
pub open spec fn rfe_status(status: i32) -> i32 {
    let read = status & STATUS_READ_MASK;
    written_value(
        12,
        status,
        (read & (0xFFFF_FFF0u32 as i32)) | (logical_rshift_32(read, 2) & 0xF),
        false,
    )
}

/// The physical address of a virtual one: KSEG0 and KSEG1 lose their base.
pub open spec fn physical_of(virtual_address: i32) -> i32 {
    let a = virtual_address as u32;
    if 0x8000_0000 <= a < 0xA000_0000 {
        (a - 0x8000_0000) as i32
    } else if 0xA000_0000 <= a < 0xC000_0000 {
        (a - 0xA000_0000) as i32
    } else {
        virtual_address
    }
}

/// Addresses in KUSEG and KSEG0 are cacheable.
pub open spec fn cacheable(virtual_address: i32) -> bool {
    (virtual_address as u32) < 0xA000_0000
}

/// Status bit 1 clear: kernel mode.
pub open spec fn kernel_mode(status: i32) -> bool {
    status & 0x2 == 0
}

/// Bit `28 + n` of Status.
pub open spec fn co_processor_usable(status: i32, n: i32) -> bool {
    logical_rshift_32(logical_rshift_32(status, 28), n) & 1 == 1
}

/// The general exception vector for a Status value: BEV selects the ROM one.
pub open spec fn general_vector(status: i32) -> i32 {
    if status & 0x0040_0000 != 0 {
        0xBFC0_0180u32 as i32
    } else {
        0x8000_0080u32 as i32
    }
}

/// The System Control Co-processor.
pub struct CP0 {
    /// Register file, indexed by register number.
    pub cp_registers: [i32; 32],
    /// Condition line, as seen by branch-on-condition instructions.
    pub condition_line: bool,
}

impl CP0 {
    /// The register file as a sequence.
    pub open spec fn regs(&self) -> Seq<i32> {
        self.cp_registers@
    }

    /// The stored Status register.
    pub open spec fn status(&self) -> i32 {
        self.cp_registers@[12]
    }

    /// The state that a reset leaves, from the state before it.
    pub open spec fn reset_from(&self, before: CP0) -> bool {
        &&& self.cp_registers@ == before.cp_registers@.update(1, 63i32 << 8).update(
            12,
            before.cp_registers@[12] & (0xFF9F_FFFFu32 as i32) & (0xFFFD_FFFCu32 as i32),
        )
        &&& !self.condition_line
    }

    /// A co-processor just after power-on.
    pub fn new() -> (r: Self)
        ensures
            r.cp_registers@ == Seq::new(32, |i: int| 0i32).update(1, 63i32 << 8),
            !r.condition_line,
    {
        let mut cp0 = CP0 { cp_registers: [0i32; 32], condition_line: false };
        cp0.reset();
        proof {
            assert((0i32 & (0xFF9F_FFFFu32 as i32) & (0xFFFD_FFFCu32 as i32)) == 0i32)
                by (bit_vector);
            assert(cp0.cp_registers@ =~= Seq::new(32, |i: int| 0i32).update(1, 63i32 << 8));
        }
        cp0
    }

    /// Resets as the reset exception does: Random to 63, BEV, TS, SWc, KUc and
    /// IEc cleared, condition line low.
    pub fn reset(&mut self)
        ensures
            final(self).reset_from(*old(self)),
    {
        self.cp_registers[1] = 63i32 << 8;
        let status = self.cp_registers[12];
        self.cp_registers[12] = status & (0xFF9F_FFFFu32 as i32) & (0xFFFD_FFFCu32 as i32);
        self.condition_line = false;
    }

    /// The condition line.
    pub fn get_condition_line_status(&self) -> (r: bool)
        ensures
            r == self.condition_line,
    {
        self.condition_line
    }

    /// Sets the condition line.
    pub fn set_condition_line_status(&mut self, status: bool)
        ensures
            final(self).condition_line == status,
            final(self).cp_registers == old(self).cp_registers,
    {
        self.condition_line = status;
    }

    /// Returns from exception: pops the kernel/interrupt-enable mode stack.
    pub fn rfe(&mut self)
        ensures
            final(self).cp_registers@ == old(self).cp_registers@.update(
                12,
                rfe_status(old(self).status()),
            ),
            final(self).condition_line == old(self).condition_line,
    {
        let temp_reg = self.read_reg(STATUS);
        let new_bits = temp_reg.logical_rshift(2) & 0xF;
        self.write_reg(STATUS, (temp_reg & (0xFFFF_FFF0u32 as i32)) | new_bits, false);
    }

    /// The reset exception vector.
    pub fn get_reset_exception_vector(&self) -> (r: i32)
        ensures
            r == 0xBFC0_0000u32 as i32,
    {
        0xBFC0_0000u32 as i32
    }

    /// The general exception vector, which Status's BEV bit selects.
    pub fn get_general_exception_vector(&self) -> (r: i32)
        ensures
            r == general_vector(self.status()),
    {
        let bev = (self.cp_registers[12] & 0x0040_0000).logical_rshift(22) != 0;
        proof {
            let s = self.cp_registers@[12];
            assert(((((s & 0x0040_0000) as u32) >> 22u32) as i32 != 0) == (s & 0x0040_0000 != 0))
                by (bit_vector);
        }
        if bev {
            0xBFC0_0180u32 as i32
        } else {
            0x8000_0080u32 as i32
        }
    }

    /// Reads register `reg`, with the read masks of Status and Cause and the
    /// fixed PRId; any other register, or a number outside 0 to 31, reads 0.
    pub fn read_reg(&self, reg: i32) -> (r: i32)
        ensures
            r == read_value(self.regs(), reg as int),
    {
        if reg == 12 {
            self.cp_registers[12] & STATUS_READ_MASK
        } else if reg == 13 {
            self.cp_registers[13] & CAUSE_READ_MASK
        } else if reg == 15 {
            2
        } else if reg == 1 || reg == 8 || reg == 14 {
            self.cp_registers[reg as usize]
        } else {
            0
        }
    }

    /// Writes register `reg`; without `write_override` the read-only bits of
    /// Status and Cause keep their values.
    pub fn write_reg(&mut self, reg: i32, value: i32, write_override: bool)
        requires
            0 <= reg < 32,
        ensures
            final(self).cp_registers@ == old(self).cp_registers@.update(
                reg as int,
                written_value(reg as int, old(self).cp_registers@[reg as int], value, write_override),
            ),
            final(self).condition_line == old(self).condition_line,
    {
        let array_index = reg as usize;
        if write_override {
            self.cp_registers[array_index] = value;
        } else if array_index == 12 {
            let temp_val = self.cp_registers[12] & STATUS_KEEP_MASK;
            self.cp_registers[12] = (value & STATUS_WRITE_MASK) | temp_val;
        } else if array_index == 13 {
            let temp_val = self.cp_registers[13] & CAUSE_KEEP_MASK;
            self.cp_registers[13] = (value & CAUSE_WRITE_MASK) | temp_val;
        } else {
            self.cp_registers[array_index] = value;
        }
    }

    /// Sets or clears the cache-miss bit (bit 19) of Status.
    pub fn set_cache_miss(&mut self, value: bool)
        ensures
            final(self).cp_registers@ == old(self).cp_registers@.update(
                12,
                (old(self).status() & (0xFFF7_FFFFu32 as i32)) | (if value { 0x0008_0000i32 } else { 0i32 }),
            ),
            final(self).condition_line == old(self).condition_line,
    {
        let cm_flag: i32 = if value {
            0x0008_0000
        } else {
            0
        };
        let status_reg = (self.cp_registers[12] & (0xFFF7_FFFFu32 as i32)) | cm_flag;
        self.write_reg(STATUS, status_reg, true);
    }

    /// Translates a virtual address into a physical one.
    pub fn virtual_to_physical(&self, virtual_address: i32) -> (r: i32)
        ensures
            r == physical_of(virtual_address),
    {
        let a = virtual_address as u32;
        if 0x8000_0000 <= a && a < 0xA000_0000 {
            (a - 0x8000_0000) as i32
        } else if 0xA000_0000 <= a && a < 0xC000_0000 {
            (a - 0xA000_0000) as i32
        } else {
            virtual_address
        }
    }

    /// Whether a virtual address is cacheable.
    pub fn is_cacheable(&self, virtual_address: i32) -> (r: bool)
        ensures
            r == cacheable(virtual_address),
    {
        (virtual_address as u32) < 0xA000_0000
    }

    /// Whether the processor is in kernel mode.
    pub fn are_we_in_kernel_mode(&self) -> (r: bool)
        ensures
            r == kernel_mode(self.status()),
    {
        (self.cp_registers[12] & 0x02) == 0
    }

    /// Whether user mode runs with the opposite byte ordering (Status bit 25).
    pub fn user_mode_opposite_byte_ordering(&self) -> (r: bool)
        ensures
            r == (self.status() & 0x0200_0000 == 0x0200_0000),
    {
        (self.cp_registers[12] & 0x0200_0000) == 0x0200_0000
    }

    /// Whether a virtual address may be accessed: always in kernel mode, and
    /// only below 0x80000000 in user mode.
    pub fn is_address_allowed(&self, virtual_address: i32) -> (r: bool)
        ensures
            r == (virtual_address >= 0 || kernel_mode(self.status())),
    {
        proof {
            assert(((virtual_address & (0x8000_0000u32 as i32)) == 0) == (virtual_address >= 0))
                by (bit_vector);
        }
        (virtual_address & (0x8000_0000u32 as i32)) == 0 || self.are_we_in_kernel_mode()
    }

    /// Whether the caches are swapped; this model never swaps them.
    pub fn are_caches_swapped(&self) -> (r: bool)
        ensures
            !r,
    {
        false
    }

    /// Whether the data cache is isolated (Status bit 16).
    pub fn is_data_cache_isolated(&self) -> (r: bool)
        ensures
            r == (self.status() & 0x0001_0000 == 0x0001_0000),
    {
        self.cp_registers[12] & 0x0001_0000 == 0x0001_0000
    }

    /// Whether co-processor `co_processor_num` is usable (Status bit `28 + n`).
    pub fn is_co_processor_usable(&self, co_processor_num: i32) -> (r: bool)
        requires
            0 <= co_processor_num < 4,
        ensures
            r == co_processor_usable(self.status(), co_processor_num),
    {
        let usable_flags = self.cp_registers[12].logical_rshift(28);
        usable_flags.logical_rshift(co_processor_num) & 0x1 == 1
    }
}

/// Reading Status gives exactly its readable bits; with every bit set that is
/// 0xF27FFF3F. Cause likewise gives 0xB000FF7C, and PRId always reads 2.
pub proof fn lemma_read_masks(regs: Seq<i32>)
    requires
        regs.len() == 32,
    ensures
        regs[12] == -1i32 ==> read_value(regs, 12) == 0xF27F_FF3Fu32 as i32,
        regs[13] == -1i32 ==> read_value(regs, 13) == 0xB000_FF7Cu32 as i32,
        read_value(regs, 15) == 2,
{
    assert((-1i32 & (0xF27F_FF3Fu32 as i32)) == 0xF27F_FF3Fu32 as i32) by (bit_vector);
    assert((-1i32 & (0xB000_FF7Cu32 as i32)) == 0xB000_FF7Cu32 as i32) by (bit_vector);
}

/// RFE on a Status word whose bits 5-2 are set and bits 1-0 clear leaves
/// bits 3-0 set and bits 5-4 as they were.
pub proof fn lemma_rfe_shifts_mode_stack(status: i32)
    requires
        status & 0x3C == 0x3C,
        status & 0x3 == 0,
    ensures
        rfe_status(status) & 0xF == 0xF,
        rfe_status(status) & 0x30 == status & 0x30,
{
    assert(status & 0x3C == 0x3C && status & 0x3 == 0 ==> {
        let read = status & (0xF27F_FF3Fu32 as i32);
        let v = (read & (0xFFFF_FFF0u32 as i32)) | ((((read as u32) >> 2u32) as i32) & 0xF);
        let w = (v & (0xF24B_FF3Fu32 as i32)) | (status & 0x0DB4_00C0);
        w & 0xF == 0xF && w & 0x30 == status & 0x30
    }) by (bit_vector);
}

} // verus!
