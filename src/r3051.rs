//! The R3051 processor core: register file, instruction cache, bus
//! transactions, exception entry, interrupt polling and the block loop.

use vstd::prelude::*;
use crate::utility::{CustomInteger, SystemBusHolder, logical_rshift_32, sign_extend_32};
use crate::mips_exception::{MIPSException, MIPSExceptionReason};
use crate::cp0::{CP0, general_vector, read_value};
use crate::cp2::CP2;
use crate::cpu::CpuBridge;

verus! {

/// How wide a data transaction is.
#[derive(Copy, Clone, PartialEq, Eq, Debug, Structural)]
pub enum R3051Width {
    BYTE,
    HALFWORD,
    WORD,
}

/// The five-bit register field of `instruction` that starts at bit `shift`.
pub open spec fn field(instruction: i32, shift: i32) -> int {
    (logical_rshift_32(instruction, shift) & 0x1F) as int
}

/// The rs field.
pub open spec fn rs_of(instruction: i32) -> int {
    field(instruction, 21)
}

/// The rt field.
pub open spec fn rt_of(instruction: i32) -> int {
    field(instruction, 16)
}

/// The rd field.
pub open spec fn rd_of(instruction: i32) -> int {
    field(instruction, 11)
}

/// The shift amount field.
pub open spec fn shamt_of(instruction: i32) -> i32 {
    field(instruction, 6) as i32
}

/// The immediate field, sign-extended.
pub open spec fn simm_of(instruction: i32) -> i32 {
    sign_extend_32(instruction, 15)
}

/// The immediate field, zero-extended.
pub open spec fn uimm_of(instruction: i32) -> i32 {
    instruction & 0xFFFF
}

/// A 32-bit word read as unsigned.
pub open spec fn unsigned(x: i32) -> int {
    x as u32 as int
}

/// The register file after writing `value` to register `r`; register 0
/// stays zero.
pub open spec fn with_reg(regs: Seq<i32>, r: int, value: i32) -> Seq<i32> {
    regs.update(r, value).update(0, 0)
}

/// The branch displacement of `instruction`: its immediate times four, sign-extended.
pub open spec fn branch_offset(instruction: i32) -> i32 {
    let offset = (instruction & 0xFFFF) << 2;
    if offset & 0x20000 == 0x20000 {
        offset | (0xFFFC_0000u32 as i32)
    } else {
        offset
    }
}

/// Where a branch at `pc` goes.
pub open spec fn branch_target(pc: i32, instruction: i32) -> i32 {
    (unsigned(pc) + 4 + branch_offset(instruction)) as i32
}

/// The address a load or store of `instruction` touches, before truncation to 32 bits.
pub open spec fn effective_address(regs: Seq<i32>, instruction: i32) -> int {
    unsigned(regs[rs_of(instruction)]) + simm_of(instruction)
}

/// A word with its byte order reversed.
pub open spec fn swapped(word: i32) -> i32 {
    (word << 24) | ((word << 8) & 0xFF0000) | (logical_rshift_32(word, 8) & 0xFF00) | (
    logical_rshift_32(word, 24) & 0xFF)
}

/// The bus address of byte `k` of the 16-byte line holding `address`.
pub open spec fn line_byte_address(address: i32, k: int) -> i32 {
    ((address & (0xFFFF_FFF0u32 as i32)) + k) as i32
}

/// The cache line that a physical address falls in.
pub open spec fn line_of(address: i32) -> int {
    (logical_rshift_32(address, 4) & 0xFF) as int
}

/// The tag that a physical address has.
pub open spec fn tag_of(address: i32) -> i32 {
    logical_rshift_32(address, 12) & 0xFFFFF
}

/// The exception latch after raising `reason` at `pc`: the origin is `pc`,
/// or `delay_origin` when the instruction sits in a branch delay slot.
pub open spec fn raised(
    e: MIPSException,
    reason: MIPSExceptionReason,
    pc: i32,
    in_delay_slot: bool,
    delay_origin: i32,
) -> MIPSException {
    MIPSException {
        exception_reason: reason,
        is_in_branch_delay_slot: in_delay_slot,
        program_counter_origin: if in_delay_slot {
            delay_origin
        } else {
            pc
        },
        ..e
    }
}

/// `pc - 4`, on 32 bits.
pub open spec fn before(pc: i32) -> i32 {
    (unsigned(pc) - 4) as i32
}

/// The Cause value that exception entry writes.
pub open spec fn entry_cause(cause: i32, e: MIPSException) -> i32 {
    let coded = (cause & (0xFFFF_FF83u32 as i32)) | (e.exception_reason.code_spec() << 2);
    let with_bd = if e.is_in_branch_delay_slot {
        coded | (0x8000_0000u32 as i32)
    } else {
        coded & 0x7FFF_FFFF
    };
    if e.exception_reason == MIPSExceptionReason::CPU {
        (with_bd & (0xCFFF_FFFFu32 as i32)) | (e.co_processor_num << 28)
    } else {
        with_bd
    }
}

/// The Status value that exception entry writes: the mode stack pushed.
pub open spec fn entry_status(status: i32) -> i32 {
    (status & (0xFFFF_FFC0u32 as i32)) | ((status & 0xF) << 2)
}

/// The state of the R3051.
pub struct R3051 {
    /// General registers; register 0 reads zero.
    pub general_registers: [i32; 32],
    pub program_counter: i32,
    /// Results of multiplication and division.
    pub hi_reg: i32,
    pub lo_reg: i32,
    /// Where a pending jump goes, once its delay slot has run.
    pub jump_address: i32,
    pub jump_pending: bool,
    /// The system control co-processor.
    pub sccp: CP0,
    /// The geometry transformation engine.
    pub gte: CP2,
    pub system_bus_holder: SystemBusHolder,
    /// The pending exception.
    pub exception: MIPSException,
    /// Whether the previous instruction was a branch or jump.
    pub prev_was_branch: bool,
    /// Whether the current instruction is a branch or jump.
    pub is_branch: bool,
    /// Cycles of the current instruction.
    pub cycles: i32,
    /// Cycles that the current GTE operation takes.
    pub gte_cycles: i32,
    /// Cycles of the current block.
    pub total_cycles: i64,
    /// The instruction cache's 4 KiB of data.
    pub instruction_cache_data: [i8; 4096],
    /// The tag of each of the 256 16-byte lines.
    pub instruction_cache_tag: [i32; 256],
    /// Whether each line holds valid data.
    pub instruction_cache_valid: [bool; 256],
}

impl R3051 {
    /// The general registers as a sequence.
    pub open spec fn regs(&self) -> Seq<i32> {
        self.general_registers@
    }

    /// Everything that instruction handlers do not touch is as in `o`.
    pub open spec fn keeps_core(&self, o: &R3051) -> bool {
        &&& self.program_counter == o.program_counter
        &&& self.prev_was_branch == o.prev_was_branch
        &&& self.system_bus_holder == o.system_bus_holder
        &&& self.gte_cycles == o.gte_cycles
    }

    /// The instruction cache is as in `o`.
    pub open spec fn keeps_cache(&self, o: &R3051) -> bool {
        &&& self.instruction_cache_data == o.instruction_cache_data
        &&& self.instruction_cache_tag == o.instruction_cache_tag
        &&& self.instruction_cache_valid == o.instruction_cache_valid
    }

    /// HI, LO and the branch state are as in `o`.
    pub open spec fn keeps_flow(&self, o: &R3051) -> bool {
        &&& self.hi_reg == o.hi_reg
        &&& self.lo_reg == o.lo_reg
        &&& self.jump_address == o.jump_address
        &&& self.jump_pending == o.jump_pending
        &&& self.is_branch == o.is_branch
    }

    /// Only the general registers may differ from `o`.
    pub open spec fn only_registers_changed(&self, o: &R3051) -> bool {
        &&& self.keeps_core(o)
        &&& self.keeps_cache(o)
        &&& self.keeps_flow(o)
        &&& self.sccp == o.sccp
        &&& self.gte == o.gte
        &&& self.exception == o.exception
        &&& self.cycles == o.cycles
        &&& self.total_cycles == o.total_cycles
    }

    /// `self` is `o` with register `r` set to `value` (register 0 kept zero).
    pub open spec fn wrote_register(&self, o: &R3051, r: int, value: i32) -> bool {
        &&& self.only_registers_changed(o)
        &&& self.regs() == with_reg(o.regs(), r, value)
        &&& self.regs()[0] == 0
    }

    /// `self` is `o` with `reason` raised at the current instruction.
    pub open spec fn raised_from(&self, o: &R3051, reason: MIPSExceptionReason) -> bool {
        &&& self.exception == raised(o.exception, reason, o.program_counter, o.prev_was_branch, before(o.program_counter))
        &&& self.regs() == o.regs()
        &&& self.keeps_core(o)
        &&& self.keeps_cache(o)
        &&& self.keeps_flow(o)
        &&& self.sccp == o.sccp
        &&& self.gte == o.gte
        &&& self.cycles == o.cycles
        &&& self.total_cycles == o.total_cycles
    }

    /// `self` is `o` with an address error for `address` raised.
    pub open spec fn address_error_from(&self, o: &R3051, reason: MIPSExceptionReason, address: int) -> bool {
        let e = MIPSException { bad_address: address as i32, ..o.exception };
        &&& self.exception == raised(e, reason, o.program_counter, o.prev_was_branch, before(o.program_counter))
        &&& self.regs() == o.regs()
        &&& self.keeps_core(o)
        &&& self.keeps_cache(o)
        &&& self.keeps_flow(o)
        &&& self.sccp == o.sccp
        &&& self.gte == o.gte
        &&& self.cycles == o.cycles
        &&& self.total_cycles == o.total_cycles
    }

    /// The line holding `address` holds the 16 bytes that `bus` has there,
    /// and no other cache byte differs from `o`.
    pub open spec fn refilled_from<B: CpuBridge>(&self, o: &R3051, bus: B, address: i32) -> bool {
        let base = (address & 0xFF0) as int;
        &&& forall|k: int| 0 <= k < 16 ==> #[trigger] self.instruction_cache_data@[base + k]
            == bus.byte_at(line_byte_address(address, k))
        &&& forall|i: int|
            0 <= i < 4096 && !(base <= i < base + 16) ==> #[trigger] self.instruction_cache_data@[i]
                == o.instruction_cache_data@[i]
    }

    /// Whether an instruction fetch of physical `address` hits the cache.
    pub open spec fn cache_hit(&self, address: i32) -> bool {
        &&& self.instruction_cache_tag@[line_of(address)] == tag_of(address)
        &&& self.instruction_cache_valid@[line_of(address)]
    }

    /// The data cache is isolated.
    pub open spec fn isolated(&self) -> bool {
        self.sccp.status() & 0x0001_0000 == 0x0001_0000
    }

    /// A processor just after power-on, at the reset vector.
    pub fn new() -> (r: Self)
        ensures
            r.regs() == Seq::new(32, |i: int| 0i32),
            r.program_counter == 0xBFC0_0000u32 as i32,
            r.exception.is_empty(),
            r.system_bus_holder == SystemBusHolder::CPU,
            !r.jump_pending,
            !r.prev_was_branch,
            !r.is_branch,
            r.hi_reg == 0 && r.lo_reg == 0,
            r.cycles == 0 && r.gte_cycles == 0 && r.total_cycles == 0,
            forall|i: int| 0 <= i < 256 ==> !#[trigger] r.instruction_cache_valid@[i],
            r.sccp.cp_registers@ == Seq::new(32, |i: int| 0i32).update(1, 63i32 << 8),
            !r.sccp.condition_line,
            crate::cp0::kernel_mode(r.sccp.status()),
    {
        let mut r3051 = R3051 {
            general_registers: [0i32; 32],
            program_counter: 0,
            hi_reg: 0,
            lo_reg: 0,
            jump_address: 0,
            jump_pending: false,
            sccp: CP0::new(),
            gte: CP2::new(),
            system_bus_holder: SystemBusHolder::CPU,
            exception: MIPSException::new(),
            prev_was_branch: false,
            is_branch: false,
            cycles: 0,
            gte_cycles: 0,
            total_cycles: 0,
            instruction_cache_data: [0i8; 4096],
            instruction_cache_tag: [0i32; 256],
            instruction_cache_valid: [false; 256],
        };
        r3051.reset();
        assert(r3051.regs() =~= Seq::new(32, |i: int| 0i32));
        assert(r3051.sccp.status() == 0);
        assert(0i32 & 0x2 == 0) by (bit_vector);
        r3051
    }

    /// Moves the program counter to the reset vector.
    pub fn reset(&mut self)
        ensures
            final(self).program_counter == 0xBFC0_0000u32 as i32,
            final(self).regs() == old(self).regs(),
            final(self).sccp == old(self).sccp,
            final(self).gte == old(self).gte,
            final(self).exception == old(self).exception,
            final(self).prev_was_branch == old(self).prev_was_branch,
            final(self).system_bus_holder == old(self).system_bus_holder,
            final(self).keeps_cache(old(self)),
            final(self).keeps_flow(old(self)),
            final(self).cycles == old(self).cycles,
            final(self).gte_cycles == old(self).gte_cycles,
            final(self).total_cycles == old(self).total_cycles,
    {
        self.program_counter = self.sccp.get_reset_exception_vector();
    }

    /// Whether an instruction fetch of physical `address` hits the cache:
    /// the line's tag must match and the line must be valid.
    pub fn check_for_instruction_cache_hit(&self, address: i32) -> (r: bool)
        ensures
            r == self.cache_hit(address),
    {
        let tag_index = line_index(address);
        let expected_tag = address.logical_rshift(12) & 0xFFFFF;
        self.instruction_cache_tag[tag_index] == expected_tag && self.instruction_cache_valid[tag_index]
    }

    /// The big-endian word of the cache at the word holding `address`.
    pub fn read_instruction_cache_word(&self, address: i32) -> (r: i32)
        ensures
            r == cache_word(self.instruction_cache_data@, (address & 0xFFC) as int),
    {
        let data_index = word_index(address);
        (((self.instruction_cache_data[data_index] as i32) & 0xFF) << 24) | (((
        self.instruction_cache_data[data_index + 1] as i32) & 0xFF) << 16) | (((
        self.instruction_cache_data[data_index + 2] as i32) & 0xFF) << 8) | ((
        self.instruction_cache_data[data_index + 3] as i32) & 0xFF)
    }

    /// The cache byte at `address`.
    pub fn read_instruction_cache_byte(&self, address: i32) -> (r: i8)
        ensures
            r == self.instruction_cache_data@[(address & 0xFFF) as int],
    {
        self.instruction_cache_data[byte_index(address)]
    }

    /// Writes a big-endian word into the cache; while the data cache is
    /// isolated, the line it lands in is tagged with it and invalidated.
    pub fn write_instruction_cache_word(&mut self, address: i32, value: i32)
        ensures
            final(self).instruction_cache_data@ == old(self).instruction_cache_data@.update(
                (address & 0xFFC) as int,
                logical_rshift_32(value, 24) as i8,
            ).update((address & 0xFFC) + 1, logical_rshift_32(value, 16) as i8).update(
                (address & 0xFFC) + 2,
                logical_rshift_32(value, 8) as i8,
            ).update((address & 0xFFC) + 3, value as i8),
            old(self).isolated() ==> final(self).instruction_cache_tag@ == old(self).instruction_cache_tag@.update(line_of(address), tag_of(address))
                && final(self).instruction_cache_valid@ == old(self).instruction_cache_valid@.update(line_of(address), false),
            !old(self).isolated() ==> final(self).instruction_cache_tag
                == old(self).instruction_cache_tag && final(self).instruction_cache_valid
                == old(self).instruction_cache_valid,
            final(self).keeps_all_but_timing_and_cache(old(self)),
            final(self).cycles == old(self).cycles,
            final(self).total_cycles == old(self).total_cycles,
    {
        let data_index = word_index(address);
        self.instruction_cache_data[data_index] = value.logical_rshift(24) as i8;
        self.instruction_cache_data[data_index + 1] = value.logical_rshift(16) as i8;
        self.instruction_cache_data[data_index + 2] = value.logical_rshift(8) as i8;
        self.instruction_cache_data[data_index + 3] = value as i8;
        if self.sccp.is_data_cache_isolated() {
            let tag_index = line_index(address);
            self.instruction_cache_tag[tag_index] = address.logical_rshift(12) & 0xFFFFF;
            self.instruction_cache_valid[tag_index] = false;
        }
    }

    /// Writes a byte into the cache; while the data cache is isolated, the
    /// line it lands in is tagged with it and invalidated.
    pub fn write_instruction_cache_byte(&mut self, address: i32, value: i8)
        ensures
            final(self).instruction_cache_data@ == old(self).instruction_cache_data@.update(
                (address & 0xFFF) as int,
                value,
            ),
            old(self).isolated() ==> final(self).instruction_cache_tag@ == old(self).instruction_cache_tag@.update(line_of(address), tag_of(address))
                && final(self).instruction_cache_valid@ == old(self).instruction_cache_valid@.update(line_of(address), false),
            !old(self).isolated() ==> final(self).instruction_cache_tag
                == old(self).instruction_cache_tag && final(self).instruction_cache_valid
                == old(self).instruction_cache_valid,
            final(self).keeps_all_but_timing_and_cache(old(self)),
            final(self).cycles == old(self).cycles,
            final(self).total_cycles == old(self).total_cycles,
    {
        self.instruction_cache_data[byte_index(address)] = value;
        if self.sccp.is_data_cache_isolated() {
            let tag_index = line_index(address);
            self.instruction_cache_tag[tag_index] = address.logical_rshift(12) & 0xFFFFF;
            self.instruction_cache_valid[tag_index] = false;
        }
    }

    /// Unless the data cache is isolated, fills the line of `address` with
    /// the sixteen bytes of its line read from the bus, and marks it valid.
    pub fn refill_instruction_cache_line<B: CpuBridge>(&mut self, bridge: &mut B, address: i32)
        ensures
            final(bridge).sync_count() == old(bridge).sync_count(),
            final(bridge).synced_cycles() == old(bridge).synced_cycles(),
            *final(bridge) == *old(bridge),
            old(self).isolated() ==> final(self).keeps_cache(old(self)),
            !old(self).isolated() ==> final(self).cache_hit(address),
            !old(self).isolated() ==> forall|l: int|
                0 <= l < 256 && l != line_of(address) ==> final(self).instruction_cache_tag@[l]
                    == old(self).instruction_cache_tag@[l]
                    && final(self).instruction_cache_valid@[l]
                    == old(self).instruction_cache_valid@[l],
            !old(self).isolated() ==> final(self).refilled_from(old(self), *old(bridge), address),
            final(self).keeps_all_but_timing_and_cache(old(self)),
            final(self).cycles == old(self).cycles,
            final(self).total_cycles == old(self).total_cycles,
    {
        if self.sccp.is_data_cache_isolated() {
            return;
        }
        let tag_index = line_index(address);
        self.instruction_cache_tag[tag_index] = address.logical_rshift(12) & 0xFFFFF;
        self.instruction_cache_valid[tag_index] = true;
        let starting_address = address & (0xFFFF_FFF0u32 as i32);
        assert(0 <= address & 0xFF0 <= 0xFF0) by (bit_vector);
        let base = (address & 0xFF0) as usize;
        let mut offset: usize = 0;
        while offset < 16
            invariant
                0 <= offset <= 16,
                base == (address & 0xFF0) as int,
                base + 16 <= 4096,
                starting_address == address & (0xFFFF_FFF0u32 as i32),
                self.cache_hit(address),
                self.keeps_all_but_timing_and_cache(old(self)),
                self.cycles == old(self).cycles,
                self.total_cycles == old(self).total_cycles,
                forall|l: int|
                    0 <= l < 256 && l != line_of(address) ==> self.instruction_cache_tag@[l]
                        == old(self).instruction_cache_tag@[l]
                        && self.instruction_cache_valid@[l]
                        == old(self).instruction_cache_valid@[l],
                forall|k: int|
                    0 <= k < offset ==> #[trigger] self.instruction_cache_data@[base + k]
                        == bridge.byte_at(line_byte_address(address, k)),
                forall|i: int|
                    0 <= i < 4096 && !(base <= i < base + offset) ==> #[trigger] self.instruction_cache_data@[i]
                        == old(self).instruction_cache_data@[i],
            decreases 16 - offset,
        {
            let byte_address = (starting_address as i64 + offset as i64) as i32;
            let value = bridge.read_byte(byte_address);
            self.instruction_cache_data[base + offset] = value;
            offset = offset + 1;
        }
    }

    /// Reverses the byte order of a word.
    pub fn swap_word_endianness(&self, word: i32) -> (r: i32)
        ensures
            r == swapped(word),
    {
        (word << 24) | ((word << 8) & 0xFF0000) | (word.logical_rshift(8) & 0xFF00) | (
        word.logical_rshift(24) & 0xFF)
    }
}

impl R3051 {
    /// Everything but the cycle counters and the instruction cache is as in `o`.
    pub open spec fn keeps_all_but_timing_and_cache(&self, o: &R3051) -> bool {
        &&& self.keeps_core(o)
        &&& self.keeps_flow(o)
        &&& self.regs() == o.regs()
        &&& self.sccp == o.sccp
        &&& self.gte == o.gte
        &&& self.exception == o.exception
    }

    /// The instruction and block cycle counts of `self` are those of `o`
    /// plus `stall`, wrapping on overflow.
    pub open spec fn advanced_by(&self, o: &R3051, stall: i32) -> bool {
        &&& self.cycles == (o.cycles + stall) as i32
        &&& self.total_cycles == (o.total_cycles + stall) as i64
    }

    /// Adds stall cycles to the instruction and block counts, wrapping on overflow.
    pub(crate) fn add_cycles(&mut self, n: i32)
        ensures
            final(self).cycles == (old(self).cycles + n) as i32,
            final(self).total_cycles == (old(self).total_cycles + n) as i64,
            final(self).keeps_all_but_timing_and_cache(old(self)),
            final(self).keeps_cache(old(self)),
    {
        self.cycles = (self.cycles as i64 + n as i64) as i32;
        self.total_cycles = (self.total_cycles as i128 + n as i128) as i64;
    }

    /// Records `reason` in the exception latch, with the current program
    /// counter as origin, or `delay_origin` inside a branch delay slot.
    pub(crate) fn raise_exception(&mut self, reason: MIPSExceptionReason, delay_origin: i32)
        ensures
            final(self).exception == raised(
                old(self).exception,
                reason,
                old(self).program_counter,
                old(self).prev_was_branch,
                delay_origin,
            ),
            final(self).regs() == old(self).regs(),
            final(self).keeps_core(old(self)),
            final(self).keeps_cache(old(self)),
            final(self).keeps_flow(old(self)),
            final(self).sccp == old(self).sccp,
            final(self).gte == old(self).gte,
            final(self).cycles == old(self).cycles,
            final(self).total_cycles == old(self).total_cycles,
    {
        self.exception.exception_reason = reason;
        self.exception.is_in_branch_delay_slot = self.prev_was_branch;
        self.exception.program_counter_origin = if self.prev_was_branch {
            delay_origin
        } else {
            self.program_counter
        };
    }

    /// The program counter minus four, on 32 bits.
    pub(crate) fn previous_address(&self) -> (r: i32)
        ensures
            r == before(self.program_counter),
    {
        ((self.program_counter as u32) as i64 - 4) as i32
    }

    /// Raises `reason` at the current instruction, whose delay-slot origin is
    /// the branch before it.
    pub(crate) fn raise_here(&mut self, reason: MIPSExceptionReason)
        ensures
            final(self).raised_from(old(self), reason),
    {
        let origin = self.previous_address();
        self.raise_exception(reason, origin);
    }

    /// Raises an address error of kind `reason` for `address`.
    pub(crate) fn raise_address_error(&mut self, reason: MIPSExceptionReason, address: i64)
        ensures
            final(self).address_error_from(old(self), reason, address as int),
    {
        self.exception.bad_address = address as i32;
        let origin = self.previous_address();
        self.raise_exception(reason, origin);
    }

    /// Reads a byte, half word or word of data at virtual `address`: from the
    /// instruction cache while the data cache is isolated, from the scratchpad
    /// when it is enabled and the address is in it, and otherwise from the bus
    /// after counting the stall cycles that the bridge reports.
    #[verifier::rlimit(80)]
    pub fn read_data_value<B: CpuBridge>(&mut self, bridge: &mut B, width: R3051Width, address: i32) -> (r: i32)
        ensures
            final(bridge).sync_count() == old(bridge).sync_count(),
            final(bridge).synced_cycles() == old(bridge).synced_cycles(),
            final(self).keeps_all_but_timing_and_cache(old(self)),
            final(self).keeps_cache(old(self)),
            width == R3051Width::BYTE ==> 0 <= r < 0x100,
            width == R3051Width::HALFWORD ==> 0 <= r < 0x1_0000,
            old(self).isolated() ==> final(self).cycles == old(self).cycles
                && final(self).total_cycles == old(self).total_cycles,
            old(self).isolated() && width == R3051Width::WORD ==> r == cache_word(
                old(self).instruction_cache_data@,
                (crate::cp0::physical_of(address) & 0xFFC) as int,
            ),
            old(self).isolated() && width == R3051Width::BYTE ==> r == (old(
                self).instruction_cache_data@[(crate::cp0::physical_of(address) & 0xFFF) as int] as i32)
                & 0xFF,
            old(self).isolated() && width == R3051Width::HALFWORD ==> r == (((old(
                self).instruction_cache_data@[(crate::cp0::physical_of(address) & 0xFFF) as int] as i32)
                & 0xFF) << 8) | ((old(self).instruction_cache_data@[((unsigned(
                crate::cp0::physical_of(address),
            ) + 1) as i32 & 0xFFF) as int] as i32) & 0xFF),
            *final(bridge) == *old(bridge),
            ({
                let pa = crate::cp0::physical_of(address);
                let bus = old(bridge);
                let scratchpad = 0x1F80_0000 <= unsigned(pa) < 0x1F80_0400 && bus.scratchpad_on();
                let next = (if scratchpad || bus.increments(unsigned(pa) as i64) {
                    unsigned(pa) + 1
                } else {
                    unsigned(pa)
                }) as i32;
                &&& old(self).isolated() || scratchpad ==> final(self).cycles == old(self).cycles
                    && final(self).total_cycles == old(self).total_cycles
                &&& !old(self).isolated() && !scratchpad ==> final(self).advanced_by(
                    old(self),
                    bus.stall_of(pa),
                )
                &&& !old(self).isolated() && width == R3051Width::BYTE ==> r == (bus.byte_at(pa) as i32)
                    & 0xFF
                &&& !old(self).isolated() && width == R3051Width::HALFWORD ==> r == ((((bus.byte_at(
                    pa,
                ) as i32) & 0xFF) << 8) | ((bus.byte_at(next) as i32) & 0xFF))
                &&& !old(self).isolated() && width == R3051Width::WORD ==> r == bus.word_at(pa)
            }),
    {
        let physical_address = self.sccp.virtual_to_physical(address);
        let temp_physical_address = (physical_address as u32) as i64;
        if self.sccp.is_data_cache_isolated() {
            assert(self.advanced_by(old(self), 0));
            match width {
                R3051Width::BYTE => byte_of(self.read_instruction_cache_byte(physical_address)),
                R3051Width::HALFWORD => {
                    let high = byte_of(self.read_instruction_cache_byte(physical_address));
                    let low = byte_of(self.read_instruction_cache_byte((temp_physical_address + 1) as i32));
                    half_of(high, low)
                },
                R3051Width::WORD => self.read_instruction_cache_word(physical_address),
            }
        } else if 0x1F80_0000 <= temp_physical_address && temp_physical_address < 0x1F80_0400
            && bridge.scratchpad_enabled() {
            assert(self.advanced_by(old(self), 0));
            match width {
                R3051Width::BYTE => byte_of(bridge.read_byte(physical_address)),
                R3051Width::HALFWORD => {
                    let high = byte_of(bridge.read_byte(physical_address));
                    let low = byte_of(bridge.read_byte((temp_physical_address + 1) as i32));
                    half_of(high, low)
                },
                R3051Width::WORD => bridge.read_word(physical_address),
            }
        } else {
            let delay_cycles = bridge.how_many_stall_cycles(physical_address);
            let value = match width {
                R3051Width::BYTE => byte_of(bridge.read_byte(physical_address)),
                R3051Width::HALFWORD => {
                    let high = byte_of(bridge.read_byte(physical_address));
                    let next = if bridge.ok_to_increment(temp_physical_address) {
                        temp_physical_address + 1
                    } else {
                        temp_physical_address
                    };
                    let low = byte_of(bridge.read_byte(next as i32));
                    half_of(high, low)
                },
                R3051Width::WORD => bridge.read_word(physical_address),
            };
            self.add_cycles(delay_cycles);
            assert(self.advanced_by(old(self), delay_cycles));
            value
        }
    }

    /// Writes a byte, half word or word of data at virtual `address`, routed
    /// as `read_data_value` routes reads.
    #[verifier::rlimit(80)]
    pub fn write_data_value<B: CpuBridge>(&mut self, bridge: &mut B, width: R3051Width, address: i32, value: i32)
        ensures
            final(bridge).sync_count() == old(bridge).sync_count(),
            final(bridge).synced_cycles() == old(bridge).synced_cycles(),
            final(self).keeps_all_but_timing_and_cache(old(self)),
            !old(self).isolated() ==> final(self).keeps_cache(old(self)),
            old(self).isolated() ==> final(self).cycles == old(self).cycles
                && final(self).total_cycles == old(self).total_cycles,
            old(self).isolated() && width == R3051Width::BYTE ==> final(self).instruction_cache_data@
                == old(self).instruction_cache_data@.update(
                (crate::cp0::physical_of(address) & 0xFFF) as int,
                value as i8,
            ),
            old(self).isolated() ==> !final(self).instruction_cache_valid@[line_of(
                crate::cp0::physical_of(address),
            )],
            old(self).isolated() && width != R3051Width::HALFWORD ==> final(
                self).instruction_cache_tag@[line_of(crate::cp0::physical_of(address))] == tag_of(
                crate::cp0::physical_of(address),
            ),
            old(self).isolated() && width == R3051Width::WORD ==> ({
                let i = (crate::cp0::physical_of(address) & 0xFFC) as int;
                final(self).instruction_cache_data@ == old(self).instruction_cache_data@.update(
                    i,
                    logical_rshift_32(value, 24) as i8,
                ).update(i + 1, logical_rshift_32(value, 16) as i8).update(
                    i + 2,
                    logical_rshift_32(value, 8) as i8,
                ).update(i + 3, value as i8)
            }),
            old(self).isolated() && width == R3051Width::HALFWORD ==> final(
                self).instruction_cache_data@ == old(self).instruction_cache_data@.update(
                (crate::cp0::physical_of(address) & 0xFFF) as int,
                logical_rshift_32(value, 8) as i8,
            ).update(
                ((unsigned(crate::cp0::physical_of(address)) + 1) as i32 & 0xFFF) as int,
                value as i8,
            ),
            ({
                let pa = crate::cp0::physical_of(address);
                let scratchpad = 0x1F80_0000 <= unsigned(pa) < 0x1F80_0400 && old(bridge).scratchpad_on();
                &&& old(self).isolated() || scratchpad ==> final(self).cycles == old(self).cycles
                    && final(self).total_cycles == old(self).total_cycles
                &&& !old(self).isolated() && !scratchpad ==> final(self).advanced_by(
                    old(self),
                    old(bridge).stall_of(pa),
                )
            }),
    {
        let physical_address = self.sccp.virtual_to_physical(address);
        let temp_physical_address = (physical_address as u32) as i64;
        proof {
            lemma_line_bounds(physical_address);
        }
        if self.sccp.is_data_cache_isolated() {
            assert(self.advanced_by(old(self), 0));
            match width {
                R3051Width::BYTE => {
                    self.write_instruction_cache_byte(physical_address, value as i8);
                },
                R3051Width::HALFWORD => {
                    self.write_instruction_cache_byte(physical_address, value.logical_rshift(8) as i8);
                    proof {
                        lemma_line_bounds(physical_address);
                        lemma_line_bounds((temp_physical_address + 1) as i32);
                    }
                    self.write_instruction_cache_byte((temp_physical_address + 1) as i32, value as i8);
                },
                R3051Width::WORD => {
                    self.write_instruction_cache_word(physical_address, value);
                },
            }
            assert(self.advanced_by(old(self), 0));
        } else if 0x1F80_0000 <= temp_physical_address && temp_physical_address < 0x1F80_0400
            && bridge.scratchpad_enabled() {
            assert(self.advanced_by(old(self), 0));
            match width {
                R3051Width::BYTE => {
                    bridge.write_byte(physical_address, value as i8);
                },
                R3051Width::HALFWORD => {
                    bridge.write_byte(physical_address, value.logical_rshift(8) as i8);
                    bridge.write_byte((temp_physical_address + 1) as i32, value as i8);
                },
                R3051Width::WORD => {
                    bridge.write_word(physical_address, value);
                },
            }
        } else {
            let delay_cycles = bridge.how_many_stall_cycles(physical_address);
            match width {
                R3051Width::BYTE => {
                    bridge.write_byte(physical_address, value as i8);
                },
                R3051Width::HALFWORD => {
                    bridge.write_byte(physical_address, value.logical_rshift(8) as i8);
                    let next = if bridge.ok_to_increment(temp_physical_address) {
                        temp_physical_address + 1
                    } else {
                        temp_physical_address
                    };
                    bridge.write_byte(next as i32, value as i8);
                },
                R3051Width::WORD => {
                    bridge.write_word(physical_address, value);
                },
            }
            self.add_cycles(delay_cycles);
            assert(self.advanced_by(old(self), delay_cycles));
        }
    }
}

/// Whether `reason` is one of the ten kinds that exception entry handles in
/// full (all but `RESET` and `NULL`).
pub open spec fn is_handled_kind(reason: MIPSExceptionReason) -> bool {
    reason != MIPSExceptionReason::NULL && reason != MIPSExceptionReason::RESET
}

/// The CP0 registers after exception entry for `e`: EPC, BadVAddr for
/// address errors, Cause's code, delay-slot and co-processor fields, and the
/// pushed mode stack of Status.
pub open spec fn entry_registers(regs: Seq<i32>, e: MIPSException) -> Seq<i32> {
    let with_epc = regs.update(14, e.program_counter_origin);
    let with_bad = if e.exception_reason == MIPSExceptionReason::ADEL || e.exception_reason
        == MIPSExceptionReason::ADES {
        with_epc.update(8, e.bad_address)
    } else {
        with_epc
    };
    with_bad.update(13, entry_cause(read_value(regs, 13), e)).update(
        12,
        entry_status(read_value(regs, 12)),
    )
}

/// Cause as the interrupt poll leaves it: bit 10 tells whether an
/// unmasked hardware interrupt is pending.
pub open spec fn polled_cause(cause: i32, pending: bool) -> i32 {
    if pending {
        cause | 0x400
    } else {
        cause & (0xFFFF_FBFFu32 as i32)
    }
}

/// Whether Status and Cause call for an interrupt: interrupts enabled and a
/// pending interrupt that the mask lets through.
pub open spec fn interrupt_fires(status: i32, cause: i32) -> bool {
    status & 0x1 == 0x1 && ((cause & 0x0000_FF00) & (status & 0x0000_FF00)) != 0
}

impl R3051 {
    /// `self` is `o` after exception entry for `o`'s pending exception.
    pub open spec fn entered_exception(&self, o: &R3051) -> bool {
        &&& self.exception.is_empty()
        &&& self.sccp.regs() == entry_registers(o.sccp.regs(), o.exception)
        &&& self.sccp.condition_line == o.sccp.condition_line
        &&& self.program_counter == general_vector(o.sccp.status())
        &&& !self.jump_pending
        &&& !self.prev_was_branch
        &&& self.regs() == o.regs()
        &&& self.gte == o.gte
        &&& self.keeps_cache(o)
        &&& self.hi_reg == o.hi_reg && self.lo_reg == o.lo_reg
        &&& self.jump_address == o.jump_address && self.is_branch == o.is_branch
        &&& self.system_bus_holder == o.system_bus_holder
        &&& self.cycles == o.cycles && self.gte_cycles == o.gte_cycles
        &&& self.total_cycles == o.total_cycles
    }

    /// Takes the pending exception, if any. Nothing happens when none is
    /// pending. A reset exception resets the processor and CP0. Any other
    /// kind updates Cause, EPC, Status (and BadVAddr for address errors),
    /// jumps to the general exception vector and empties the latch.
    /// Returns whether an exception was taken.
    pub fn handle_exception(&mut self) -> (r: bool)
        ensures
            r == (old(self).exception.exception_reason != MIPSExceptionReason::NULL),
            !r ==> *final(self) == *old(self),
            old(self).exception.exception_reason == MIPSExceptionReason::RESET ==> {
                &&& final(self).program_counter == 0xBFC0_0000u32 as i32
                &&& final(self).sccp.reset_from(old(self).sccp)
                &&& !final(self).jump_pending
                &&& !final(self).prev_was_branch
                &&& final(self).exception == old(self).exception
                &&& final(self).regs() == old(self).regs()
            },
            is_handled_kind(old(self).exception.exception_reason) ==> final(self).entered_exception(
                old(self),
            ),
    {
        if self.exception.exception_reason == MIPSExceptionReason::NULL {
            return false;
        }
        self.jump_pending = false;
        self.prev_was_branch = false;
        let temp_cause = self.sccp.read_reg(13);
        let temp_status = self.sccp.read_reg(12);
        if self.exception.exception_reason == MIPSExceptionReason::RESET {
            self.reset();
            self.sccp.reset();
            return true;
        }
        let reason = self.exception.exception_reason;
        let mut cause = (temp_cause & (0xFFFF_FF83u32 as i32)) | (reason.code() << 2);
        if self.exception.is_in_branch_delay_slot {
            cause = cause | (0x8000_0000u32 as i32);
        } else {
            cause = cause & 0x7FFF_FFFF;
        }
        self.sccp.write_reg(14, self.exception.program_counter_origin, true);
        let status = (temp_status & (0xFFFF_FFC0u32 as i32)) | ((temp_status & 0xF) << 2);
        self.program_counter = self.sccp.get_general_exception_vector();
        if reason == MIPSExceptionReason::ADEL || reason == MIPSExceptionReason::ADES {
            self.sccp.write_reg(8, self.exception.bad_address, true);
        } else if reason == MIPSExceptionReason::CPU {
            cause = (cause & (0xCFFF_FFFFu32 as i32)) | (self.exception.co_processor_num << 28);
        }
        self.sccp.write_reg(13, cause, true);
        self.sccp.write_reg(12, status, true);
        self.exception.reset();
        proof {
            assert(self.sccp.regs() =~= entry_registers(old(self).sccp.regs(), old(self).exception));
        }
        true
    }
}

/// Whatever register an instruction writes, and whatever it writes there,
/// general register 0 reads zero afterwards.
pub proof fn lemma_register_zero_stays_zero(regs: Seq<i32>, r: int, value: i32)
    requires
        regs.len() == 32,
        0 <= r < 32,
    ensures
        with_reg(regs, r, value)[0] == 0,
        forall|i: int| 1 <= i < 32 && i != r ==> #[trigger] with_reg(regs, r, value)[i] == regs[i],
{
}

/// Raising any exception kind but `RESET` and `NULL` at an instruction and
/// then entering the exception leaves the latch empty, and EPC holds the
/// instruction's address, or the address before it when the instruction
/// sits in a branch delay slot.
pub proof fn lemma_exception_round_trip(
    before_raise: R3051,
    raised_state: R3051,
    entered: R3051,
    reason: MIPSExceptionReason,
)
    requires
        is_handled_kind(reason),
        raised_state.raised_from(&before_raise, reason),
        entered.entered_exception(&raised_state),
    ensures
        entered.exception.exception_reason == MIPSExceptionReason::NULL,
        entered.sccp.regs()[14] == (if before_raise.prev_was_branch {
            before(before_raise.program_counter)
        } else {
            before_raise.program_counter
        }),
        is_handled_kind(raised_state.exception.exception_reason),
{
}

/// The register fields of an instruction name one of the 32 registers.
pub proof fn lemma_fields_bounded(instruction: i32)
    ensures
        0 <= rs_of(instruction) < 32,
        0 <= rt_of(instruction) < 32,
        0 <= rd_of(instruction) < 32,
{
    let a = logical_rshift_32(instruction, 21);
    let b = logical_rshift_32(instruction, 16);
    let c = logical_rshift_32(instruction, 11);
    assert(0 <= a & 0x1F < 32) by (bit_vector);
    assert(0 <= b & 0x1F < 32) by (bit_vector);
    assert(0 <= c & 0x1F < 32) by (bit_vector);
}

/// Cache line numbers are below 256.
pub proof fn lemma_line_bounds(address: i32)
    ensures
        0 <= line_of(address) < 256,
{
    let x = logical_rshift_32(address, 4);
    assert(0 <= (x & 0xFF) < 256) by (bit_vector);
}

/// A byte read as unsigned.
fn byte_of(b: i8) -> (r: i32)
    ensures
        r == (b as i32) & 0xFF,
        0 <= r < 0x100,
{
    let x = b as i32;
    assert(0 <= (x & 0xFF) < 0x100) by (bit_vector);
    x & 0xFF
}

/// A half word from its high and low bytes.
fn half_of(high: i32, low: i32) -> (r: i32)
    requires
        0 <= high < 0x100,
        0 <= low < 0x100,
    ensures
        r == (high << 8) | low,
        0 <= r < 0x1_0000,
{
    assert(0 <= high < 0x100 && 0 <= low < 0x100 ==> 0 <= ((high << 8) | low) < 0x1_0000)
        by (bit_vector);
    (high << 8) | low
}

/// The big-endian word of cache data at `index`.
pub open spec fn cache_word(data: Seq<i8>, index: int) -> i32 {
    (((data[index] as i32) & 0xFF) << 24) | (((data[index + 1] as i32) & 0xFF) << 16) | (((
    data[index + 2] as i32) & 0xFF) << 8) | ((data[index + 3] as i32) & 0xFF)
}

/// The cache line index of `address`.
fn line_index(address: i32) -> (r: usize)
    ensures
        r == line_of(address),
        r < 256,
{
    let l = address.logical_rshift(4) & 0xFF;
    proof {
        lemma_line_bounds(address);
    }
    l as usize
}

/// The byte index of `address` in the cache data.
fn byte_index(address: i32) -> (r: usize)
    ensures
        r == (address & 0xFFF) as int,
        r < 4096,
{
    assert(0 <= (address & 0xFFF) < 4096) by (bit_vector);
    (address & 0xFFF) as usize
}

/// The index of the first byte of the word holding `address` in the cache data.
fn word_index(address: i32) -> (r: usize)
    ensures
        r == (address & 0xFFC) as int,
        r + 3 < 4096,
{
    assert(0 <= (address & 0xFFC) < 4093) by (bit_vector);
    (address & 0xFFC) as usize
}

/// The five-bit field of `instruction` that starts at bit `shift`.
pub fn register_field(instruction: i32, shift: i32) -> (r: usize)
    requires
        0 <= shift < 32,
    ensures
        r == field(instruction, shift),
        r < 32,
{
    let f = instruction.logical_rshift(shift) & 0x1F;
    proof {
        let x = logical_rshift_32(instruction, shift);
        assert(0 <= (x & 0x1F) < 32) by (bit_vector);
    }
    f as usize
}

} // verus!
