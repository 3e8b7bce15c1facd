//! The R3051's instruction handlers, one per instruction.

use vstd::prelude::*;
use crate::utility::{CustomInteger, logical_rshift_32, logical_rshift_64};
use crate::mips_exception::MIPSExceptionReason;
use crate::cp0::{read_value, physical_of, kernel_mode};
use crate::cp2::{control_read_value, data_read_value, data_written};
use crate::cpu::CpuBridge;
use crate::r3051::{
    R3051,
    R3051Width,
    register_field,
    rs_of,
    rt_of,
    rd_of,
    shamt_of,
    simm_of,
    uimm_of,
    unsigned,
    with_reg,
    branch_target,
    effective_address,
    swapped,
};

verus! {

/// Whether signed `a + b` leaves the 32-bit range.
pub open spec fn add_overflows(a: i32, b: i32) -> bool {
    !(i32::MIN <= a + b <= i32::MAX)
}

/// Whether signed `a - b` leaves the 32-bit range.
pub open spec fn sub_overflows(a: i32, b: i32) -> bool {
    !(i32::MIN <= a - b <= i32::MAX)
}

/// Quotient of `a / b`, rounded towards zero.
pub open spec fn quotient(a: int, b: int) -> int {
    let q = abs(a) / abs(b);
    if (a < 0) == (b < 0) {
        q
    } else {
        -q
    }
}

/// `|a|`.
pub open spec fn abs(a: int) -> int {
    if a < 0 {
        -a
    } else {
        a
    }
}

/// Whether the 32-bit address is not a multiple of `n` (a power of two).
pub open spec fn misaligned(address: int, n: i32) -> bool {
    (address as i32) & ((n - 1) as i32) != 0
}

/// Whether `address` may be accessed with the given Status register.
pub open spec fn allowed(status: i32, address: int) -> bool {
    (address as i32) >= 0 || kernel_mode(status)
}

/// LWL: the loaded big-endian word `word` merged into the high bytes of `reg`.
pub open spec fn lwl_merge(word: i32, reg: i32, address: i32) -> i32 {
    let shift = (((!address) & 0x3) * 8) as i32;
    (swapped(word) << shift) | (reg & !((0xFFFF_FFFFu32 as i32) << shift))
}

/// LWR: the loaded big-endian word `word` merged into the low bytes of `reg`.
pub open spec fn lwr_merge(word: i32, reg: i32, address: i32) -> i32 {
    let shift = ((address & 0x3) * 8) as i32;
    logical_rshift_32(swapped(word), shift) | (reg & !logical_rshift_32(0xFFFF_FFFFu32 as i32, shift))
}

/// Swaps the two bytes of a half word.
fn swap_half_word(half: i32) -> (r: i32)
    requires
        0 <= half < 0x1_0000,
    ensures
        r == ((half << 8) & 0xFF00) | logical_rshift_32(half, 8),
        0 <= r < 0x1_0000,
{
    let r = ((half << 8) & 0xFF00) | half.logical_rshift(8);
    assert(0 <= half < 0x1_0000 ==> 0 <= (((half << 8) & 0xFF00) | (((half as u32) >> 8u32) as i32))
        < 0x1_0000) by (bit_vector);
    r
}

/// A byte sign-extended from bit 7 lies in -128..128.
proof fn lemma_sign_extend_byte(b: i32)
    requires
        0 <= b < 0x100,
    ensures
        -0x80 <= crate::utility::sign_extend_32(b, 7) < 0x80,
{
    assert(0 <= b < 0x100 ==> -0x80 <= (if b & (1i32 << 7i32) != 0 {
        b | ((0xFFFF_FFFEu32 as i32) << 7i32)
    } else {
        b & !((0xFFFF_FFFEu32 as i32) << 7i32)
    }) < 0x80) by (bit_vector);
}

/// A half word sign-extended from bit 15 lies in -32768..32768.
proof fn lemma_sign_extend_half(h: i32)
    requires
        0 <= h < 0x1_0000,
    ensures
        -0x8000 <= crate::utility::sign_extend_32(h, 15) < 0x8000,
{
    assert(0 <= h < 0x1_0000 ==> -0x8000 <= (if h & (1i32 << 15i32) != 0 {
        h | ((0xFFFF_FFFEu32 as i32) << 15i32)
    } else {
        h & !((0xFFFF_FFFEu32 as i32) << 15i32)
    }) < 0x8000) by (bit_vector);
}

impl R3051 {
    /// `self` is `o` after a branch-type instruction: `taken` sets the
    /// pending jump to `target`, the registers become `regs`.
    pub open spec fn branched_from(
        &self,
        o: &R3051,
        taken: bool,
        target: i32,
        regs: Seq<i32>,
        marks_branch: bool,
    ) -> bool {
        &&& if taken {
            self.jump_pending && self.jump_address == target
        } else {
            self.jump_pending == o.jump_pending && self.jump_address == o.jump_address
        }
        &&& self.is_branch == (marks_branch || o.is_branch)
        &&& self.regs() == regs
        &&& self.hi_reg == o.hi_reg && self.lo_reg == o.lo_reg
        &&& self.keeps_core(o)
        &&& self.keeps_cache(o)
        &&& self.sccp == o.sccp
        &&& self.gte == o.gte
        &&& self.exception == o.exception
        &&& self.cycles == o.cycles && self.total_cycles == o.total_cycles
    }

    /// `self` is `o` with HI and LO set.
    pub open spec fn wrote_hi_lo(&self, o: &R3051, hi: i32, lo: i32) -> bool {
        &&& self.hi_reg == hi && self.lo_reg == lo
        &&& self.regs() == o.regs()
        &&& self.jump_address == o.jump_address && self.jump_pending == o.jump_pending
        &&& self.is_branch == o.is_branch
        &&& self.keeps_core(o)
        &&& self.keeps_cache(o)
        &&& self.sccp == o.sccp
        &&& self.gte == o.gte
        &&& self.exception == o.exception
        &&& self.cycles == o.cycles && self.total_cycles == o.total_cycles
    }

    /// `self` is `o` after a successful load into register `r`: only the
    /// registers and the cycle counts may differ.
    pub open spec fn loaded_from(&self, o: &R3051, r: int) -> bool {
        &&& self.regs() == with_reg(o.regs(), r, self.regs()[r])
        &&& self.regs()[0] == 0
        &&& self.keeps_core(o)
        &&& self.keeps_flow(o)
        &&& self.keeps_cache(o)
        &&& self.sccp == o.sccp
        &&& self.gte == o.gte
        &&& self.exception == o.exception
    }

    /// `self` is `o` after a successful store: only the instruction cache
    /// and the cycle counts may differ.
    pub open spec fn stored_from(&self, o: &R3051) -> bool {
        &&& self.regs() == o.regs()
        &&& self.keeps_core(o)
        &&& self.keeps_flow(o)
        &&& self.sccp == o.sccp
        &&& self.gte == o.gte
        &&& self.exception == o.exception
    }

    /// `self` is `o` after ADD.
    pub open spec fn add_done(&self, o: &R3051, instruction: i32) -> bool {
        &&& ({
                let a = o.regs()[rs_of(instruction)];
                let b = o.regs()[rt_of(instruction)];
                if add_overflows(a, b) {
                    self.raised_from(o, MIPSExceptionReason::OVF)
                } else {
                    self.wrote_register(o, rd_of(instruction), (a + b) as i32)
                }
            })
    }

    /// `self` is `o` after ADDI.
    pub open spec fn addi_done(&self, o: &R3051, instruction: i32) -> bool {
        &&& ({
                let a = o.regs()[rs_of(instruction)];
                let b = simm_of(instruction);
                if add_overflows(a, b) {
                    self.raised_from(o, MIPSExceptionReason::OVF)
                } else {
                    self.wrote_register(o, rt_of(instruction), (a + b) as i32)
                }
            })
    }

    /// `self` is `o` after ADDIU.
    pub open spec fn addiu_done(&self, o: &R3051, instruction: i32) -> bool {
        &&& self.wrote_register(
                o,
                rt_of(instruction),
                (o.regs()[rs_of(instruction)] + simm_of(instruction)) as i32,
            )
    }

    /// `self` is `o` after ADDU.
    pub open spec fn addu_done(&self, o: &R3051, instruction: i32) -> bool {
        &&& self.wrote_register(
                o,
                rd_of(instruction),
                (o.regs()[rs_of(instruction)] + o.regs()[rt_of(instruction)]) as i32,
            )
    }

    /// `self` is `o` after AND.
    pub open spec fn and_done(&self, o: &R3051, instruction: i32) -> bool {
        &&& self.wrote_register(
                o,
                rd_of(instruction),
                o.regs()[rs_of(instruction)] & o.regs()[rt_of(instruction)],
            )
    }

    /// `self` is `o` after ANDI.
    pub open spec fn andi_done(&self, o: &R3051, instruction: i32) -> bool {
        &&& self.wrote_register(
                o,
                rt_of(instruction),
                uimm_of(instruction) & o.regs()[rs_of(instruction)],
            )
    }

    /// `self` is `o` after BC2F.
    pub open spec fn bc2f_done(&self, o: &R3051, instruction: i32) -> bool {
        &&& self.branched_from(
                o,
                !o.gte.condition_line,
                branch_target(o.program_counter, instruction),
                o.regs(),
                false,
            )
    }

    /// `self` is `o` after BC2T.
    pub open spec fn bc2t_done(&self, o: &R3051, instruction: i32) -> bool {
        &&& self.branched_from(
                o,
                o.gte.condition_line,
                branch_target(o.program_counter, instruction),
                o.regs(),
                false,
            )
    }

    /// `self` is `o` after BEQ.
    pub open spec fn beq_done(&self, o: &R3051, instruction: i32) -> bool {
        &&& self.branched_from(
                o,
                o.regs()[rs_of(instruction)] == o.regs()[rt_of(instruction)],
                branch_target(o.program_counter, instruction),
                o.regs(),
                true,
            )
    }

    /// `self` is `o` after BNE.
    pub open spec fn bne_done(&self, o: &R3051, instruction: i32) -> bool {
        &&& self.branched_from(
                o,
                o.regs()[rs_of(instruction)] != o.regs()[rt_of(instruction)],
                branch_target(o.program_counter, instruction),
                o.regs(),
                true,
            )
    }

    /// `self` is `o` after BGEZ.
    pub open spec fn bgez_done(&self, o: &R3051, instruction: i32) -> bool {
        &&& self.branched_from(
                o,
                o.regs()[rs_of(instruction)] >= 0,
                branch_target(o.program_counter, instruction),
                o.regs(),
                true,
            )
    }

    /// `self` is `o` after BGTZ.
    pub open spec fn bgtz_done(&self, o: &R3051, instruction: i32) -> bool {
        &&& self.branched_from(
                o,
                o.regs()[rs_of(instruction)] > 0,
                branch_target(o.program_counter, instruction),
                o.regs(),
                true,
            )
    }

    /// `self` is `o` after BLEZ.
    pub open spec fn blez_done(&self, o: &R3051, instruction: i32) -> bool {
        &&& self.branched_from(
                o,
                o.regs()[rs_of(instruction)] <= 0,
                branch_target(o.program_counter, instruction),
                o.regs(),
                true,
            )
    }

    /// `self` is `o` after BLTZ.
    pub open spec fn bltz_done(&self, o: &R3051, instruction: i32) -> bool {
        &&& self.branched_from(
                o,
                o.regs()[rs_of(instruction)] < 0,
                branch_target(o.program_counter, instruction),
                o.regs(),
                true,
            )
    }

    /// `self` is `o` after BGEZAL.
    pub open spec fn bgezal_done(&self, o: &R3051, instruction: i32) -> bool {
        &&& ({
                let taken = o.regs()[rs_of(instruction)] >= 0;
                self.branched_from(
                    o,
                    taken,
                    branch_target(o.program_counter, instruction),
                    if taken {
                        with_reg(o.regs(), 31, (unsigned(o.program_counter) + 8) as i32)
                    } else {
                        o.regs()
                    },
                    true,
                )
            })
    }

    /// `self` is `o` after BLTZAL.
    pub open spec fn bltzal_done(&self, o: &R3051, instruction: i32) -> bool {
        &&& ({
                let taken = o.regs()[rs_of(instruction)] < 0;
                self.branched_from(
                    o,
                    taken,
                    branch_target(o.program_counter, instruction),
                    if taken {
                        with_reg(o.regs(), 31, (unsigned(o.program_counter) + 8) as i32)
                    } else {
                        o.regs()
                    },
                    true,
                )
            })
    }

    /// `self` is `o` after BREAK.
    pub open spec fn break_done(&self, o: &R3051) -> bool {
        &&& self.raised_from(o, MIPSExceptionReason::BP)
    }

    /// `self` is `o` after SYSCALL.
    pub open spec fn syscall_done(&self, o: &R3051) -> bool {
        &&& self.raised_from(o, MIPSExceptionReason::SYS)
    }

    /// `self` is `o` after CF2.
    pub open spec fn cf2_done(&self, o: &R3051, instruction: i32) -> bool {
        &&& self.wrote_register(
                o,
                rt_of(instruction),
                control_read_value(o.gte.control(), rd_of(instruction)),
            )
    }

    /// `self` is `o` after CT2.
    pub open spec fn ct2_done(&self, o: &R3051, instruction: i32) -> bool {
        &&& self.gte.control() == o.gte.control().update(
                rd_of(instruction),
                o.regs()[rt_of(instruction)],
            )
        &&& self.gte.data_registers == o.gte.data_registers
        &&& self.gte.condition_line == o.gte.condition_line
        &&& self.regs() == o.regs()
        &&& self.keeps_core(o)
        &&& self.keeps_cache(o)
        &&& self.keeps_flow(o)
        &&& self.sccp == o.sccp
        &&& self.exception == o.exception
    }

    /// `self` is `o` after DIV.
    pub open spec fn div_done(&self, o: &R3051, instruction: i32) -> bool {
        &&& ({
                let a = o.regs()[rs_of(instruction)] as int;
                let b = o.regs()[rt_of(instruction)] as int;
                if b != 0 {
                    self.wrote_hi_lo(
                        o,
                        (a - b * quotient(a, b)) as i32,
                        quotient(a, b) as i32,
                    )
                } else {
                    self.wrote_hi_lo(o, a as i32, -1i32)
                }
            })
    }

    /// `self` is `o` after DIVU.
    pub open spec fn divu_done(&self, o: &R3051, instruction: i32) -> bool {
        &&& ({
                let a = unsigned(o.regs()[rs_of(instruction)]);
                let b = unsigned(o.regs()[rt_of(instruction)]);
                if b != 0 {
                    self.wrote_hi_lo(o, (a % b) as i32, (a / b) as i32)
                } else {
                    self.wrote_hi_lo(o, a as i32, -1i32)
                }
            })
    }

    /// `self` is `o` after J.
    pub open spec fn j_done(&self, o: &R3051, instruction: i32) -> bool {
        &&& self.branched_from(
                o,
                true,
                ((instruction & 0x3FF_FFFF) << 2) | (o.program_counter & (0xF000_0000u32 as i32)),
                o.regs(),
                true,
            )
    }

    /// `self` is `o` after JAL.
    pub open spec fn jal_done(&self, o: &R3051, instruction: i32) -> bool {
        &&& self.branched_from(
                o,
                true,
                ((instruction & 0x3FF_FFFF) << 2) | (o.program_counter & (0xF000_0000u32 as i32)),
                with_reg(o.regs(), 31, (unsigned(o.program_counter) + 8) as i32),
                true,
            )
    }

    /// `self` is `o` after JALR.
    pub open spec fn jalr_done(&self, o: &R3051, instruction: i32) -> bool {
        &&& self.branched_from(
                o,
                true,
                o.regs()[rs_of(instruction)],
                with_reg(o.regs(), rd_of(instruction), (unsigned(o.program_counter) + 8) as i32),
                true,
            )
    }

    /// `self` is `o` after JR.
    pub open spec fn jr_done(&self, o: &R3051, instruction: i32) -> bool {
        &&& self.branched_from(
                o,
                true,
                o.regs()[rs_of(instruction)],
                o.regs(),
                true,
            )
    }

    /// `self` is `o` after LB.
    pub open spec fn lb_done(&self, o: &R3051, instruction: i32) -> bool {
        &&& ({
                let a = effective_address(o.regs(), instruction);
                let rt = rt_of(instruction);
                if !allowed(o.sccp.status(), a) {
                    self.address_error_from(o, MIPSExceptionReason::ADEL, a)
                } else {
                    self.loaded_from(o, rt) && (rt != 0 ==> -0x80 <= self.regs()[rt] < 0x80)
                }
            })
    }

    /// `self` is `o` after LBU.
    pub open spec fn lbu_done(&self, o: &R3051, instruction: i32) -> bool {
        &&& ({
                let a = effective_address(o.regs(), instruction);
                let rt = rt_of(instruction);
                if !allowed(o.sccp.status(), a) {
                    self.address_error_from(o, MIPSExceptionReason::ADEL, a)
                } else {
                    self.loaded_from(o, rt) && (rt != 0 ==> 0 <= self.regs()[rt] < 0x100)
                }
            })
    }

    /// `self` is `o` after LH.
    pub open spec fn lh_done(&self, o: &R3051, instruction: i32) -> bool {
        &&& ({
                let a = effective_address(o.regs(), instruction);
                let rt = rt_of(instruction);
                if !allowed(o.sccp.status(), a) || misaligned(a, 2) {
                    self.address_error_from(o, MIPSExceptionReason::ADEL, a)
                } else {
                    self.loaded_from(o, rt) && (rt != 0 ==> -0x8000 <= self.regs()[rt] < 0x8000)
                }
            })
    }

    /// `self` is `o` after LHU.
    pub open spec fn lhu_done(&self, o: &R3051, instruction: i32) -> bool {
        &&& ({
                let a = effective_address(o.regs(), instruction);
                let rt = rt_of(instruction);
                if !allowed(o.sccp.status(), a) || misaligned(a, 2) {
                    self.address_error_from(o, MIPSExceptionReason::ADEL, a)
                } else {
                    self.loaded_from(o, rt) && (rt != 0 ==> 0 <= self.regs()[rt] < 0x1_0000)
                }
            })
    }

    /// `self` is `o` after LUI.
    pub open spec fn lui_done(&self, o: &R3051, instruction: i32) -> bool {
        &&& self.wrote_register(o, rt_of(instruction), uimm_of(instruction) << 16)
    }

    /// `self` is `o` after LW.
    pub open spec fn lw_done(&self, o: &R3051, instruction: i32) -> bool {
        &&& ({
                let a = effective_address(o.regs(), instruction);
                let rt = rt_of(instruction);
                if !allowed(o.sccp.status(), a) || misaligned(a, 4) {
                    self.address_error_from(o, MIPSExceptionReason::ADEL, a)
                } else {
                    self.loaded_from(o, rt)
                }
            })
    }

    /// `self` is `o` after LWC2.
    pub open spec fn lwc2_done(&self, o: &R3051, instruction: i32) -> bool {
        &&& ({
                let a = effective_address(o.regs(), instruction);
                if !allowed(o.sccp.status(), a) || misaligned(a, 4) {
                    self.address_error_from(o, MIPSExceptionReason::ADEL, a)
                } else {
                    &&& exists|w: i32| self.gte.data() == data_written(
                        o.gte.data(),
                        rt_of(instruction),
                        #[trigger] swapped(w),
                        false,
                    )
                    &&& self.gte.control_registers == o.gte.control_registers
                    &&& self.regs() == o.regs()
                    &&& self.keeps_core(o)
                    &&& self.keeps_flow(o)
                    &&& self.keeps_cache(o)
                    &&& self.sccp == o.sccp
                    &&& self.exception == o.exception
                }
            })
    }

    /// `self` is `o` after LWL.
    pub open spec fn lwl_done(&self, o: &R3051, instruction: i32) -> bool {
        &&& ({
                let a = effective_address(o.regs(), instruction);
                let rt = rt_of(instruction);
                if !allowed(o.sccp.status(), a) {
                    self.address_error_from(o, MIPSExceptionReason::ADEL, a)
                } else {
                    self.loaded_from(o, rt) && exists|w: i32|
                        self.regs() == with_reg(
                            o.regs(),
                            rt,
                            #[trigger] lwl_merge(w, o.regs()[rt], a as i32),
                        )
                }
            })
    }

    /// `self` is `o` after LWR.
    pub open spec fn lwr_done(&self, o: &R3051, instruction: i32) -> bool {
        &&& ({
                let a = effective_address(o.regs(), instruction);
                let rt = rt_of(instruction);
                if !allowed(o.sccp.status(), a) {
                    self.address_error_from(o, MIPSExceptionReason::ADEL, a)
                } else {
                    self.loaded_from(o, rt) && exists|w: i32|
                        self.regs() == with_reg(
                            o.regs(),
                            rt,
                            #[trigger] lwr_merge(w, o.regs()[rt], a as i32),
                        )
                }
            })
    }

    /// `self` is `o` after MF0.
    pub open spec fn mf0_done(&self, o: &R3051, instruction: i32) -> bool {
        &&& ({
                let rd = rd_of(instruction);
                if rd == 0 || rd == 1 || rd == 2 || rd == 4 || rd == 10 {
                    self.raised_from(o, MIPSExceptionReason::RI)
                } else {
                    self.wrote_register(
                        o,
                        rt_of(instruction),
                        read_value(o.sccp.regs(), rd),
                    )
                }
            })
    }

    /// `self` is `o` after MF2.
    pub open spec fn mf2_done(&self, o: &R3051, instruction: i32) -> bool {
        &&& self.wrote_register(
                o,
                rt_of(instruction),
                data_read_value(o.gte.data(), rd_of(instruction)),
            )
    }

    /// `self` is `o` after MFHI.
    pub open spec fn mfhi_done(&self, o: &R3051, instruction: i32) -> bool {
        &&& self.wrote_register(o, rd_of(instruction), o.hi_reg)
    }

    /// `self` is `o` after MFLO.
    pub open spec fn mflo_done(&self, o: &R3051, instruction: i32) -> bool {
        &&& self.wrote_register(o, rd_of(instruction), o.lo_reg)
    }

    /// `self` is `o` after MT0.
    pub open spec fn mt0_done(&self, o: &R3051, instruction: i32) -> bool {
        &&& self.sccp.regs() == o.sccp.regs().update(
                rd_of(instruction),
                crate::cp0::written_value(
                    rd_of(instruction),
                    o.sccp.regs()[rd_of(instruction)],
                    o.regs()[rt_of(instruction)],
                    false,
                ),
            )
        &&& self.sccp.condition_line == o.sccp.condition_line
        &&& self.regs() == o.regs()
        &&& self.keeps_core(o)
        &&& self.keeps_cache(o)
        &&& self.keeps_flow(o)
        &&& self.gte == o.gte
        &&& self.exception == o.exception
    }

    /// `self` is `o` after MT2.
    pub open spec fn mt2_done(&self, o: &R3051, instruction: i32) -> bool {
        &&& self.gte.data() == data_written(
                o.gte.data(),
                rd_of(instruction),
                o.regs()[rt_of(instruction)],
                false,
            )
        &&& self.gte.control_registers == o.gte.control_registers
        &&& self.gte.condition_line == o.gte.condition_line
        &&& self.regs() == o.regs()
        &&& self.keeps_core(o)
        &&& self.keeps_cache(o)
        &&& self.keeps_flow(o)
        &&& self.sccp == o.sccp
        &&& self.exception == o.exception
    }

    /// `self` is `o` after MTHI.
    pub open spec fn mthi_done(&self, o: &R3051, instruction: i32) -> bool {
        &&& self.wrote_hi_lo(o, o.regs()[rs_of(instruction)], o.lo_reg)
    }

    /// `self` is `o` after MTLO.
    pub open spec fn mtlo_done(&self, o: &R3051, instruction: i32) -> bool {
        &&& self.wrote_hi_lo(o, o.hi_reg, o.regs()[rs_of(instruction)])
    }

    /// `self` is `o` after MULT.
    pub open spec fn mult_done(&self, o: &R3051, instruction: i32) -> bool {
        &&& ({
                let p = (o.regs()[rs_of(instruction)] * o.regs()[rt_of(instruction)]) as i64;
                self.wrote_hi_lo(o, logical_rshift_64(p, 32) as i32, p as i32)
            })
    }

    /// `self` is `o` after MULTU.
    pub open spec fn multu_done(&self, o: &R3051, instruction: i32) -> bool {
        &&& ({
                let p = unsigned(o.regs()[rs_of(instruction)]) * unsigned(
                    o.regs()[rt_of(instruction)],
                );
                self.wrote_hi_lo(o, (p / 0x1_0000_0000) as i32, p as i32)
            })
    }

    /// `self` is `o` after NOR.
    pub open spec fn nor_done(&self, o: &R3051, instruction: i32) -> bool {
        &&& self.wrote_register(
                o,
                rd_of(instruction),
                !(o.regs()[rs_of(instruction)] | o.regs()[rt_of(instruction)]),
            )
    }

    /// `self` is `o` after OR.
    pub open spec fn or_done(&self, o: &R3051, instruction: i32) -> bool {
        &&& self.wrote_register(
                o,
                rd_of(instruction),
                o.regs()[rs_of(instruction)] | o.regs()[rt_of(instruction)],
            )
    }

    /// `self` is `o` after ORI.
    pub open spec fn ori_done(&self, o: &R3051, instruction: i32) -> bool {
        &&& self.wrote_register(
                o,
                rt_of(instruction),
                uimm_of(instruction) | o.regs()[rs_of(instruction)],
            )
    }

    /// `self` is `o` after XOR.
    pub open spec fn xor_done(&self, o: &R3051, instruction: i32) -> bool {
        &&& self.wrote_register(
                o,
                rd_of(instruction),
                o.regs()[rs_of(instruction)] ^ o.regs()[rt_of(instruction)],
            )
    }

    /// `self` is `o` after XORI.
    pub open spec fn xori_done(&self, o: &R3051, instruction: i32) -> bool {
        &&& self.wrote_register(
                o,
                rt_of(instruction),
                uimm_of(instruction) ^ o.regs()[rs_of(instruction)],
            )
    }

    /// `self` is `o` after RFE.
    pub open spec fn rfe_done(&self, o: &R3051) -> bool {
        &&& self.sccp.regs() == o.sccp.regs().update(
                12,
                crate::cp0::rfe_status(o.sccp.status()),
            )
        &&& self.sccp.condition_line == o.sccp.condition_line
        &&& self.regs() == o.regs()
        &&& self.keeps_core(o)
        &&& self.keeps_cache(o)
        &&& self.keeps_flow(o)
        &&& self.gte == o.gte
        &&& self.exception == o.exception
    }

    /// `self` is `o` after SLL.
    pub open spec fn sll_done(&self, o: &R3051, instruction: i32) -> bool {
        &&& self.wrote_register(
                o,
                rd_of(instruction),
                o.regs()[rt_of(instruction)] << shamt_of(instruction),
            )
    }

    /// `self` is `o` after SLLV.
    pub open spec fn sllv_done(&self, o: &R3051, instruction: i32) -> bool {
        &&& self.wrote_register(
                o,
                rd_of(instruction),
                o.regs()[rt_of(instruction)] << (o.regs()[rs_of(instruction)] & 0x1F),
            )
    }

    /// `self` is `o` after SRA.
    pub open spec fn sra_done(&self, o: &R3051, instruction: i32) -> bool {
        &&& self.wrote_register(
                o,
                rd_of(instruction),
                o.regs()[rt_of(instruction)] >> shamt_of(instruction),
            )
    }

    /// `self` is `o` after SRAV.
    pub open spec fn srav_done(&self, o: &R3051, instruction: i32) -> bool {
        &&& self.wrote_register(
                o,
                rd_of(instruction),
                o.regs()[rt_of(instruction)] >> (o.regs()[rs_of(instruction)] & 0x1F),
            )
    }

    /// `self` is `o` after SRL.
    pub open spec fn srl_done(&self, o: &R3051, instruction: i32) -> bool {
        &&& self.wrote_register(
                o,
                rd_of(instruction),
                logical_rshift_32(o.regs()[rt_of(instruction)], shamt_of(instruction)),
            )
    }

    /// `self` is `o` after SRLV.
    pub open spec fn srlv_done(&self, o: &R3051, instruction: i32) -> bool {
        &&& self.wrote_register(
                o,
                rd_of(instruction),
                logical_rshift_32(
                    o.regs()[rt_of(instruction)],
                    o.regs()[rs_of(instruction)] & 0x1F,
                ),
            )
    }

    /// `self` is `o` after SLT.
    pub open spec fn slt_done(&self, o: &R3051, instruction: i32) -> bool {
        &&& self.wrote_register(
                o,
                rd_of(instruction),
                if o.regs()[rs_of(instruction)] < o.regs()[rt_of(instruction)] {
                    1i32
                } else {
                    0i32
                },
            )
    }

    /// `self` is `o` after SLTI.
    pub open spec fn slti_done(&self, o: &R3051, instruction: i32) -> bool {
        &&& self.wrote_register(
                o,
                rt_of(instruction),
                if o.regs()[rs_of(instruction)] < simm_of(instruction) {
                    1i32
                } else {
                    0i32
                },
            )
    }

    /// `self` is `o` after SLTIU.
    pub open spec fn sltiu_done(&self, o: &R3051, instruction: i32) -> bool {
        &&& self.wrote_register(
                o,
                rt_of(instruction),
                if unsigned(o.regs()[rs_of(instruction)]) < unsigned(simm_of(instruction)) {
                    1i32
                } else {
                    0i32
                },
            )
    }

    /// `self` is `o` after SLTU.
    pub open spec fn sltu_done(&self, o: &R3051, instruction: i32) -> bool {
        &&& self.wrote_register(
                o,
                rd_of(instruction),
                if unsigned(o.regs()[rs_of(instruction)]) < unsigned(
                    o.regs()[rt_of(instruction)],
                ) {
                    1i32
                } else {
                    0i32
                },
            )
    }

    /// `self` is `o` after SUB.
    pub open spec fn sub_done(&self, o: &R3051, instruction: i32) -> bool {
        &&& ({
                let a = o.regs()[rs_of(instruction)];
                let b = o.regs()[rt_of(instruction)];
                if sub_overflows(a, b) {
                    self.raised_from(o, MIPSExceptionReason::OVF)
                } else {
                    self.wrote_register(o, rd_of(instruction), (a - b) as i32)
                }
            })
    }

    /// `self` is `o` after SUBU.
    pub open spec fn subu_done(&self, o: &R3051, instruction: i32) -> bool {
        &&& self.wrote_register(
                o,
                rd_of(instruction),
                (o.regs()[rs_of(instruction)] - o.regs()[rt_of(instruction)]) as i32,
            )
    }

    /// `self` is `o` after SB.
    pub open spec fn sb_done(&self, o: &R3051, instruction: i32) -> bool {
        &&& ({
                let a = effective_address(o.regs(), instruction);
                if !allowed(o.sccp.status(), a) {
                    self.address_error_from(o, MIPSExceptionReason::ADES, a)
                } else {
                    &&& self.stored_from(o)
                    &&& !o.isolated() ==> self.keeps_cache(o)
                    &&& o.isolated() ==> !self.instruction_cache_valid@[crate::r3051::line_of(
                        physical_of(a as i32),
                    )]
                    &&& o.isolated() ==> self.instruction_cache_data@ == o.instruction_cache_data@.update(
                        (physical_of(a as i32) & 0xFFF) as int,
                        (0xFF & o.regs()[rt_of(instruction)]) as i8,
                    )
                }
            })
    }

    /// `self` is `o` after SH.
    pub open spec fn sh_done(&self, o: &R3051, instruction: i32) -> bool {
        &&& ({
                let a = effective_address(o.regs(), instruction);
                if !allowed(o.sccp.status(), a) || misaligned(a, 2) {
                    self.address_error_from(o, MIPSExceptionReason::ADES, a)
                } else {
                    &&& self.stored_from(o)
                    &&& !o.isolated() ==> self.keeps_cache(o)
                    &&& o.isolated() ==> !self.instruction_cache_valid@[crate::r3051::line_of(
                        physical_of(a as i32),
                    )]
                }
            })
    }

    /// `self` is `o` after SW.
    pub open spec fn sw_done(&self, o: &R3051, instruction: i32) -> bool {
        &&& ({
                let a = effective_address(o.regs(), instruction);
                if !allowed(o.sccp.status(), a) || misaligned(a, 4) {
                    self.address_error_from(o, MIPSExceptionReason::ADES, a)
                } else {
                    &&& self.stored_from(o)
                    &&& !o.isolated() ==> self.keeps_cache(o)
                    &&& o.isolated() ==> !self.instruction_cache_valid@[crate::r3051::line_of(
                        physical_of(a as i32),
                    )]
                }
            })
    }

    /// `self` is `o` after SWC2.
    pub open spec fn swc2_done(&self, o: &R3051, instruction: i32) -> bool {
        &&& ({
                let a = effective_address(o.regs(), instruction);
                if !allowed(o.sccp.status(), a) || misaligned(a, 4) {
                    self.address_error_from(o, MIPSExceptionReason::ADES, a)
                } else {
                    &&& self.stored_from(o)
                    &&& !o.isolated() ==> self.keeps_cache(o)
                    &&& o.isolated() ==> !self.instruction_cache_valid@[crate::r3051::line_of(
                        physical_of(a as i32),
                    )]
                }
            })
    }

    /// `self` is `o` after SWL.
    pub open spec fn swl_done(&self, o: &R3051, instruction: i32) -> bool {
        &&& ({
                let a = effective_address(o.regs(), instruction);
                if !allowed(o.sccp.status(), a) {
                    self.address_error_from(o, MIPSExceptionReason::ADES, a)
                } else {
                    &&& self.stored_from(o)
                    &&& !o.isolated() ==> self.keeps_cache(o)
                    &&& o.isolated() ==> !self.instruction_cache_valid@[crate::r3051::line_of(
                        physical_of((a as i32) & (0xFFFF_FFFCu32 as i32)),
                    )]
                }
            })
    }

    /// `self` is `o` after SWR.
    pub open spec fn swr_done(&self, o: &R3051, instruction: i32) -> bool {
        &&& ({
                let a = effective_address(o.regs(), instruction);
                if !allowed(o.sccp.status(), a) {
                    self.address_error_from(o, MIPSExceptionReason::ADES, a)
                } else {
                    &&& self.stored_from(o)
                    &&& !o.isolated() ==> self.keeps_cache(o)
                    &&& o.isolated() ==> !self.instruction_cache_valid@[crate::r3051::line_of(
                        physical_of((a as i32) & (0xFFFF_FFFCu32 as i32)),
                    )]
                }
            })
    }

    /// Stores `value` in register `r` and keeps register 0 at zero.
    fn set_register(&mut self, r: usize, value: i32)
        requires
            r < 32,
        ensures
            final(self).wrote_register(old(self), r as int, value),
            final(self).regs() == with_reg(old(self).regs(), r as int, final(self).regs()[r as int]),
    {
        self.general_registers[r] = value;
        self.general_registers[0] = 0;
        assert(self.regs() =~= with_reg(old(self).regs(), r as int, value));
        assert(self.regs() =~= with_reg(old(self).regs(), r as int, self.regs()[r as int]));
    }

    /// The sign-extended immediate.
    fn signed_immediate(instruction: i32) -> (r: i32)
        ensures
            r == simm_of(instruction),
    {
        instruction.sign_extend(15)
    }

    /// The branch target of `instruction` at the current program counter.
    fn branch_address(&self, instruction: i32) -> (r: i32)
        ensures
            r == branch_target(self.program_counter, instruction),
    {
        let immediate = instruction & 0xFFFF;
        let mut offset = immediate << 2;
        if (offset & 0x20000) == 0x20000 {
            offset = offset | (0xFFFC_0000u32 as i32);
        }
        (((self.program_counter as u32) as i64) + 4 + offset as i64) as i32
    }

    /// The address that a load or store of `instruction` touches.
    fn data_address(&self, instruction: i32) -> (r: i64)
        ensures
            r == effective_address(self.regs(), instruction),
    {
        let rs = register_field(instruction, 21);
        let immediate = Self::signed_immediate(instruction);
        ((self.general_registers[rs] as u32) as i64) + immediate as i64
    }

    /// ADD: rd = rs + rt, raising OVF and leaving rd alone on signed overflow.
    pub fn add_instruction(&mut self, instruction: i32)
        ensures
            final(self).add_done(old(self), instruction),
    {
        let rs = register_field(instruction, 21);
        let rt = register_field(instruction, 16);
        let rd = register_field(instruction, 11);
        let result = self.general_registers[rs] as i64 + self.general_registers[rt] as i64;
        if result < i32::MIN as i64 || result > i32::MAX as i64 {
            self.raise_here(MIPSExceptionReason::OVF);
            return;
        }
        self.set_register(rd, result as i32);
    }

    /// ADDI: rt = rs + immediate, raising OVF and leaving rt alone on signed overflow.
    pub fn addi_instruction(&mut self, instruction: i32)
        ensures
            final(self).addi_done(old(self), instruction),
    {
        let immediate = Self::signed_immediate(instruction);
        let rs = register_field(instruction, 21);
        let rt = register_field(instruction, 16);
        let result = self.general_registers[rs] as i64 + immediate as i64;
        if result < i32::MIN as i64 || result > i32::MAX as i64 {
            self.raise_here(MIPSExceptionReason::OVF);
            return;
        }
        self.set_register(rt, result as i32);
    }

    /// ADDIU: rt = rs + immediate, wrapping.
    pub fn addiu_instruction(&mut self, instruction: i32)
        ensures
            final(self).addiu_done(old(self), instruction),
    {
        let immediate = Self::signed_immediate(instruction);
        let rs = register_field(instruction, 21);
        let rt = register_field(instruction, 16);
        let result = self.general_registers[rs] as i64 + immediate as i64;
        self.set_register(rt, result as i32);
    }

    /// ADDU: rd = rs + rt, wrapping.
    pub fn addu_instruction(&mut self, instruction: i32)
        ensures
            final(self).addu_done(old(self), instruction),
    {
        let rs = register_field(instruction, 21);
        let rt = register_field(instruction, 16);
        let rd = register_field(instruction, 11);
        let result = self.general_registers[rs] as i64 + self.general_registers[rt] as i64;
        self.set_register(rd, result as i32);
    }

    /// AND: rd = rs & rt.
    pub fn and_instruction(&mut self, instruction: i32)
        ensures
            final(self).and_done(old(self), instruction),
    {
        let rs = register_field(instruction, 21);
        let rt = register_field(instruction, 16);
        let rd = register_field(instruction, 11);
        let v = self.general_registers[rs] & self.general_registers[rt];
        self.set_register(rd, v);
    }

    /// ANDI: rt = rs & zero-extended immediate.
    pub fn andi_instruction(&mut self, instruction: i32)
        ensures
            final(self).andi_done(old(self), instruction),
    {
        let rs = register_field(instruction, 21);
        let rt = register_field(instruction, 16);
        let v = (instruction & 0xFFFF) & self.general_registers[rs];
        self.set_register(rt, v);
    }

    /// BC2F: jumps when the GTE condition line is low.
    pub fn bc2f_instruction(&mut self, instruction: i32)
        ensures
            final(self).bc2f_done(old(self), instruction),
    {
        let target = self.branch_address(instruction);
        if !self.gte.get_condition_line_status() {
            self.jump_address = target;
            self.jump_pending = true;
        }
    }

    /// BC2T: jumps when the GTE condition line is high.
    pub fn bc2t_instruction(&mut self, instruction: i32)
        ensures
            final(self).bc2t_done(old(self), instruction),
    {
        let target = self.branch_address(instruction);
        if self.gte.get_condition_line_status() {
            self.jump_address = target;
            self.jump_pending = true;
        }
    }

    /// BEQ: jumps when rs equals rt.
    pub fn beq_instruction(&mut self, instruction: i32)
        ensures
            final(self).beq_done(old(self), instruction),
    {
        let rs = register_field(instruction, 21);
        let rt = register_field(instruction, 16);
        let target = self.branch_address(instruction);
        self.is_branch = true;
        if self.general_registers[rs] == self.general_registers[rt] {
            self.jump_address = target;
            self.jump_pending = true;
        }
    }

    /// BNE: jumps when rs differs from rt.
    pub fn bne_instruction(&mut self, instruction: i32)
        ensures
            final(self).bne_done(old(self), instruction),
    {
        let rs = register_field(instruction, 21);
        let rt = register_field(instruction, 16);
        let target = self.branch_address(instruction);
        self.is_branch = true;
        if self.general_registers[rs] != self.general_registers[rt] {
            self.jump_address = target;
            self.jump_pending = true;
        }
    }

    /// BGEZ: jumps when rs >= 0.
    pub fn bgez_instruction(&mut self, instruction: i32)
        ensures
            final(self).bgez_done(old(self), instruction),
    {
        let rs = register_field(instruction, 21);
        let target = self.branch_address(instruction);
        self.is_branch = true;
        if self.general_registers[rs] >= 0 {
            self.jump_address = target;
            self.jump_pending = true;
        }
    }

    /// BGTZ: jumps when rs > 0.
    pub fn bgtz_instruction(&mut self, instruction: i32)
        ensures
            final(self).bgtz_done(old(self), instruction),
    {
        let rs = register_field(instruction, 21);
        let target = self.branch_address(instruction);
        self.is_branch = true;
        if self.general_registers[rs] > 0 {
            self.jump_address = target;
            self.jump_pending = true;
        }
    }

    /// BLEZ: jumps when rs <= 0.
    pub fn blez_instruction(&mut self, instruction: i32)
        ensures
            final(self).blez_done(old(self), instruction),
    {
        let rs = register_field(instruction, 21);
        let target = self.branch_address(instruction);
        self.is_branch = true;
        if self.general_registers[rs] <= 0 {
            self.jump_address = target;
            self.jump_pending = true;
        }
    }

    /// BLTZ: jumps when rs < 0.
    pub fn bltz_instruction(&mut self, instruction: i32)
        ensures
            final(self).bltz_done(old(self), instruction),
    {
        let rs = register_field(instruction, 21);
        let target = self.branch_address(instruction);
        self.is_branch = true;
        if self.general_registers[rs] < 0 {
            self.jump_address = target;
            self.jump_pending = true;
        }
    }

    /// BGEZAL: when rs >= 0, jumps and links the address after the delay slot into r31.
    pub fn bgezal_instruction(&mut self, instruction: i32)
        ensures
            final(self).bgezal_done(old(self), instruction),
    {
        let rs = register_field(instruction, 21);
        let target = self.branch_address(instruction);
        let return_address = (((self.program_counter as u32) as i64) + 8) as i32;
        self.is_branch = true;
        if self.general_registers[rs] >= 0 {
            self.jump_address = target;
            self.jump_pending = true;
            self.set_register(31, return_address);
        }
    }

    /// BLTZAL: when rs < 0, jumps and links the address after the delay slot into r31.
    pub fn bltzal_instruction(&mut self, instruction: i32)
        ensures
            final(self).bltzal_done(old(self), instruction),
    {
        let rs = register_field(instruction, 21);
        let target = self.branch_address(instruction);
        let return_address = (((self.program_counter as u32) as i64) + 8) as i32;
        self.is_branch = true;
        if self.general_registers[rs] < 0 {
            self.jump_address = target;
            self.jump_pending = true;
            self.set_register(31, return_address);
        }
    }

    /// BREAK: raises a breakpoint exception.
    pub fn break_instruction(&mut self)
        ensures
            final(self).break_done(old(self)),
    {
        self.raise_here(MIPSExceptionReason::BP);
    }

    /// SYSCALL: raises a system call exception.
    pub fn syscall_instruction(&mut self)
        ensures
            final(self).syscall_done(old(self)),
    {
        self.raise_here(MIPSExceptionReason::SYS);
    }

    /// CFC2: rt = GTE control register rd.
    pub fn cf2_instruction(&mut self, instruction: i32)
        ensures
            final(self).cf2_done(old(self), instruction),
    {
        let rt = register_field(instruction, 16);
        let rd = register_field(instruction, 11);
        let v = self.gte.read_control_reg(rd as i32);
        self.set_register(rt, v);
    }

    /// CTC2: GTE control register rd = rt.
    pub fn ct2_instruction(&mut self, instruction: i32)
        ensures
            final(self).ct2_done(old(self), instruction),
    {
        let rt = register_field(instruction, 16);
        let rd = register_field(instruction, 11);
        let v = self.general_registers[rt];
        self.gte.write_control_reg(rd as i32, v, false);
    }

    /// DIV: LO = rs / rt rounded towards zero and HI = the remainder; on
    /// division by zero LO = 0xFFFFFFFF and HI = rs.
    pub fn div_instruction(&mut self, instruction: i32)
        ensures
            final(self).div_done(old(self), instruction),
    {
        let rs = register_field(instruction, 21);
        let rt = register_field(instruction, 16);
        let rs_val = self.general_registers[rs] as i64;
        let rt_val = self.general_registers[rt] as i64;
        if rt_val != 0 {
            let ma: i64 = if rs_val < 0 { -rs_val } else { rs_val };
            let mb: i64 = if rt_val < 0 { -rt_val } else { rt_val };
            let q = ma / mb;
            let quotient_value: i64 = if (rs_val < 0) == (rt_val < 0) { q } else { -q };
            proof {
                assert(0 <= q <= ma) by (nonlinear_arith)
                    requires q == ma / mb, mb > 0, ma >= 0;
                assert(-0x4000_0000_0000_0000 <= rt_val * quotient_value <= 0x4000_0000_0000_0000)
                    by (nonlinear_arith)
                    requires
                        -0x8000_0000 <= rt_val <= 0x8000_0000,
                        -0x8000_0000 <= quotient_value <= 0x8000_0000,
                ;
            }
            let remainder = rs_val - rt_val * quotient_value;
            self.hi_reg = remainder as i32;
            self.lo_reg = quotient_value as i32;
        } else {
            self.hi_reg = rs_val as i32;
            self.lo_reg = -1;
        }
    }

    /// DIVU: as DIV on the registers read as unsigned.
    pub fn divu_instruction(&mut self, instruction: i32)
        ensures
            final(self).divu_done(old(self), instruction),
    {
        let rs = register_field(instruction, 21);
        let rt = register_field(instruction, 16);
        let rs_val = self.general_registers[rs] as u32;
        let rt_val = self.general_registers[rt] as u32;
        if rt_val != 0 {
            self.hi_reg = (rs_val % rt_val) as i32;
            self.lo_reg = (rs_val / rt_val) as i32;
        } else {
            self.hi_reg = rs_val as i32;
            self.lo_reg = -1;
        }
    }

    /// J: jumps within the current 256 MB region.
    pub fn j_instruction(&mut self, instruction: i32)
        ensures
            final(self).j_done(old(self), instruction),
    {
        let target = instruction & 0x3FF_FFFF;
        self.jump_address = (target << 2) | (self.program_counter & (0xF000_0000u32 as i32));
        self.jump_pending = true;
        self.is_branch = true;
    }

    /// JAL: as J, linking the address after the delay slot into r31.
    pub fn jal_instruction(&mut self, instruction: i32)
        ensures
            final(self).jal_done(old(self), instruction),
    {
        let target = instruction & 0x3FF_FFFF;
        self.jump_address = (target << 2) | (self.program_counter & (0xF000_0000u32 as i32));
        self.jump_pending = true;
        self.is_branch = true;
        let new_address = (((self.program_counter as u32) as i64) + 8) as i32;
        self.set_register(31, new_address);
    }

    /// JALR: jumps to rs, linking the address after the delay slot into rd.
    pub fn jalr_instruction(&mut self, instruction: i32)
        ensures
            final(self).jalr_done(old(self), instruction),
    {
        let rs = register_field(instruction, 21);
        let rd = register_field(instruction, 11);
        self.jump_address = self.general_registers[rs];
        self.jump_pending = true;
        self.is_branch = true;
        let new_address = (((self.program_counter as u32) as i64) + 8) as i32;
        self.set_register(rd, new_address);
    }

    /// JR: jumps to rs.
    pub fn jr_instruction(&mut self, instruction: i32)
        ensures
            final(self).jr_done(old(self), instruction),
    {
        let rs = register_field(instruction, 21);
        self.jump_address = self.general_registers[rs];
        self.jump_pending = true;
        self.is_branch = true;
    }

    /// LB: rt = the sign-extended byte at rs + immediate; raises ADEL for an
    /// address that the current mode may not access.
    pub fn lb_instruction<B: CpuBridge>(&mut self, bridge: &mut B, instruction: i32)
        ensures
            final(bridge).sync_count() == old(bridge).sync_count(),
            final(bridge).synced_cycles() == old(bridge).synced_cycles(),
            final(self).lb_done(old(self), instruction),
    {
        let rt = register_field(instruction, 16);
        let address = self.data_address(instruction);
        if !self.sccp.is_address_allowed(address as i32) {
            self.raise_address_error(MIPSExceptionReason::ADEL, address);
            return;
        }
        let byte = self.read_data_value(bridge, R3051Width::BYTE, address as i32);
        let value = byte.sign_extend(7);
        proof {
            lemma_sign_extend_byte(byte);
        }
        self.set_register(rt, value);
    }

    /// LBU: rt = the zero-extended byte at rs + immediate; raises ADEL for an
    /// address that the current mode may not access.
    pub fn lbu_instruction<B: CpuBridge>(&mut self, bridge: &mut B, instruction: i32)
        ensures
            final(bridge).sync_count() == old(bridge).sync_count(),
            final(bridge).synced_cycles() == old(bridge).synced_cycles(),
            final(self).lbu_done(old(self), instruction),
    {
        let rt = register_field(instruction, 16);
        let address = self.data_address(instruction);
        if !self.sccp.is_address_allowed(address as i32) {
            self.raise_address_error(MIPSExceptionReason::ADEL, address);
            return;
        }
        let byte = self.read_data_value(bridge, R3051Width::BYTE, address as i32);
        proof {
            assert(0 <= byte < 0x100 ==> 0xFF & byte == byte) by (bit_vector);
        }
        self.set_register(rt, 0xFF & byte);
    }

    /// LH: rt = the sign-extended half word at rs + immediate; raises ADEL
    /// for a forbidden or odd address.
    pub fn lh_instruction<B: CpuBridge>(&mut self, bridge: &mut B, instruction: i32)
        ensures
            final(bridge).sync_count() == old(bridge).sync_count(),
            final(bridge).synced_cycles() == old(bridge).synced_cycles(),
            final(self).lh_done(old(self), instruction),
    {
        let rt = register_field(instruction, 16);
        let address = self.data_address(instruction);
        if !self.sccp.is_address_allowed(address as i32) || (address as i32) & 1 != 0 {
            self.raise_address_error(MIPSExceptionReason::ADEL, address);
            return;
        }
        let half = self.read_data_value(bridge, R3051Width::HALFWORD, address as i32);
        let swapped_half = swap_half_word(half);
        let value = swapped_half.sign_extend(15);
        proof {
            lemma_sign_extend_half(swapped_half);
        }
        self.set_register(rt, value);
    }

    /// LHU: rt = the zero-extended half word at rs + immediate; raises ADEL
    /// for a forbidden or odd address.
    pub fn lhu_instruction<B: CpuBridge>(&mut self, bridge: &mut B, instruction: i32)
        ensures
            final(bridge).sync_count() == old(bridge).sync_count(),
            final(bridge).synced_cycles() == old(bridge).synced_cycles(),
            final(self).lhu_done(old(self), instruction),
    {
        let rt = register_field(instruction, 16);
        let address = self.data_address(instruction);
        if !self.sccp.is_address_allowed(address as i32) || (address as i32) & 1 != 0 {
            self.raise_address_error(MIPSExceptionReason::ADEL, address);
            return;
        }
        let half = self.read_data_value(bridge, R3051Width::HALFWORD, address as i32);
        let value = swap_half_word(half);
        self.set_register(rt, value);
    }

    /// LUI: rt = immediate << 16.
    pub fn lui_instruction(&mut self, instruction: i32)
        ensures
            final(self).lui_done(old(self), instruction),
    {
        let rt = register_field(instruction, 16);
        let v = (instruction & 0xFFFF) << 16;
        self.set_register(rt, v);
    }

    /// LW: rt = the word at rs + immediate, byte-swapped from the bus's
    /// order; raises ADEL for a forbidden or unaligned address.
    pub fn lw_instruction<B: CpuBridge>(&mut self, bridge: &mut B, instruction: i32)
        ensures
            final(bridge).sync_count() == old(bridge).sync_count(),
            final(bridge).synced_cycles() == old(bridge).synced_cycles(),
            final(self).lw_done(old(self), instruction),
    {
        let rt = register_field(instruction, 16);
        let address = self.data_address(instruction);
        if !self.sccp.is_address_allowed(address as i32) || (address as i32) & 3 != 0 {
            self.raise_address_error(MIPSExceptionReason::ADEL, address);
            return;
        }
        let word = self.read_data_value(bridge, R3051Width::WORD, address as i32);
        let value = self.swap_word_endianness(word);
        self.set_register(rt, value);
    }

    /// LWC2: GTE data register rt = the word at rs + immediate; raises ADEL
    /// for a forbidden or unaligned address.
    pub fn lwc2_instruction<B: CpuBridge>(&mut self, bridge: &mut B, instruction: i32)
        ensures
            final(bridge).sync_count() == old(bridge).sync_count(),
            final(bridge).synced_cycles() == old(bridge).synced_cycles(),
            final(self).lwc2_done(old(self), instruction),
    {
        let rt = register_field(instruction, 16);
        let address = self.data_address(instruction);
        if !self.sccp.is_address_allowed(address as i32) || (address as i32) & 3 != 0 {
            self.raise_address_error(MIPSExceptionReason::ADEL, address);
            return;
        }
        let word = self.read_data_value(bridge, R3051Width::WORD, address as i32);
        let value = self.swap_word_endianness(word);
        self.gte.write_data_reg(rt as i32, value, false);
    }

    /// LWL: merges the word holding rs + immediate into the high bytes of rt;
    /// the address needs no alignment but must be allowed (else ADEL).
    #[verifier::rlimit(60)]
    pub fn lwl_instruction<B: CpuBridge>(&mut self, bridge: &mut B, instruction: i32)
        ensures
            final(bridge).sync_count() == old(bridge).sync_count(),
            final(bridge).synced_cycles() == old(bridge).synced_cycles(),
            final(self).lwl_done(old(self), instruction),
    {
        let rt = register_field(instruction, 16);
        let address = self.data_address(instruction);
        if !self.sccp.is_address_allowed(address as i32) {
            self.raise_address_error(MIPSExceptionReason::ADEL, address);
            return;
        }
        let aligned_address = (address as i32) & (0xFFFF_FFFCu32 as i32);
        let inverted = !(address as i32);
        assert(0 <= inverted & 0x3 < 4) by (bit_vector);
        let shift = (inverted & 0x3) * 8;
        let word = self.read_data_value(bridge, R3051Width::WORD, aligned_address);
        let value = (self.swap_word_endianness(word) << shift) | (self.general_registers[rt]
            & !((0xFFFF_FFFFu32 as i32) << shift));
        proof {
            let old_rt = old(self).regs()[rt as int];
            assert(value == lwl_merge(word, old_rt, address as i32));
        }
        self.set_register(rt, value);
        assert(self.regs() == with_reg(
            old(self).regs(),
            rt as int,
            lwl_merge(word, old(self).regs()[rt as int], address as i32),
        ));
    }

    /// LWR: merges the word holding rs + immediate into the low bytes of rt;
    /// the address needs no alignment but must be allowed (else ADEL).
    #[verifier::rlimit(60)]
    pub fn lwr_instruction<B: CpuBridge>(&mut self, bridge: &mut B, instruction: i32)
        ensures
            final(bridge).sync_count() == old(bridge).sync_count(),
            final(bridge).synced_cycles() == old(bridge).synced_cycles(),
            final(self).lwr_done(old(self), instruction),
    {
        let rt = register_field(instruction, 16);
        let address = self.data_address(instruction);
        if !self.sccp.is_address_allowed(address as i32) {
            self.raise_address_error(MIPSExceptionReason::ADEL, address);
            return;
        }
        let aligned_address = (address as i32) & (0xFFFF_FFFCu32 as i32);
        let truncated = address as i32;
        assert(0 <= truncated & 0x3 < 4) by (bit_vector);
        let shift = (truncated & 0x3) * 8;
        let word = self.read_data_value(bridge, R3051Width::WORD, aligned_address);
        let value = self.swap_word_endianness(word).logical_rshift(shift) | (
        self.general_registers[rt] & !(0xFFFF_FFFFu32 as i32).logical_rshift(shift));
        proof {
            let old_rt = old(self).regs()[rt as int];
            assert(value == lwr_merge(word, old_rt, address as i32));
        }
        self.set_register(rt, value);
        assert(self.regs() == with_reg(
            old(self).regs(),
            rt as int,
            lwr_merge(word, old(self).regs()[rt as int], address as i32),
        ));
    }

    /// MFC0: rt = CP0 register rd; registers 0, 1, 2, 4 and 10 raise RI.
    pub fn mf0_instruction(&mut self, instruction: i32)
        ensures
            final(self).mf0_done(old(self), instruction),
    {
        let rt = register_field(instruction, 16);
        let rd = register_field(instruction, 11);
        if rd == 0 || rd == 1 || rd == 2 || rd == 4 || rd == 10 {
            self.raise_here(MIPSExceptionReason::RI);
            return;
        }
        let v = self.sccp.read_reg(rd as i32);
        self.set_register(rt, v);
    }

    /// MFC2: rt = GTE data register rd.
    pub fn mf2_instruction(&mut self, instruction: i32)
        ensures
            final(self).mf2_done(old(self), instruction),
    {
        let rt = register_field(instruction, 16);
        let rd = register_field(instruction, 11);
        let v = self.gte.read_data_reg(rd as i32);
        self.set_register(rt, v);
    }

    /// MFHI: rd = HI.
    pub fn mfhi_instruction(&mut self, instruction: i32)
        ensures
            final(self).mfhi_done(old(self), instruction),
    {
        let rd = register_field(instruction, 11);
        let v = self.hi_reg;
        self.set_register(rd, v);
    }

    /// MFLO: rd = LO.
    pub fn mflo_instruction(&mut self, instruction: i32)
        ensures
            final(self).mflo_done(old(self), instruction),
    {
        let rd = register_field(instruction, 11);
        let v = self.lo_reg;
        self.set_register(rd, v);
    }

    /// MTC0: CP0 register rd = rt, through the write masks.
    pub fn mt0_instruction(&mut self, instruction: i32)
        ensures
            final(self).mt0_done(old(self), instruction),
    {
        let rt = register_field(instruction, 16);
        let rd = register_field(instruction, 11);
        let v = self.general_registers[rt];
        self.sccp.write_reg(rd as i32, v, false);
    }

    /// MTC2: GTE data register rd = rt.
    pub fn mt2_instruction(&mut self, instruction: i32)
        ensures
            final(self).mt2_done(old(self), instruction),
    {
        let rt = register_field(instruction, 16);
        let rd = register_field(instruction, 11);
        let v = self.general_registers[rt];
        self.gte.write_data_reg(rd as i32, v, false);
    }

    /// MTHI: HI = rs.
    pub fn mthi_instruction(&mut self, instruction: i32)
        ensures
            final(self).mthi_done(old(self), instruction),
    {
        let rs = register_field(instruction, 21);
        self.hi_reg = self.general_registers[rs];
    }

    /// MTLO: LO = rs.
    pub fn mtlo_instruction(&mut self, instruction: i32)
        ensures
            final(self).mtlo_done(old(self), instruction),
    {
        let rs = register_field(instruction, 21);
        self.lo_reg = self.general_registers[rs];
    }

    /// MULT: HI:LO = rs * rt, signed.
    pub fn mult_instruction(&mut self, instruction: i32)
        ensures
            final(self).mult_done(old(self), instruction),
    {
        let rs = register_field(instruction, 21);
        let rt = register_field(instruction, 16);
        let a = self.general_registers[rs] as i64;
        let b = self.general_registers[rt] as i64;
        proof {
            assert(-0x4000_0000_0000_0000 <= a * b <= 0x4000_0000_0000_0000) by (nonlinear_arith)
                requires
                    -0x8000_0000 <= a <= 0x8000_0000,
                    -0x8000_0000 <= b <= 0x8000_0000,
            ;
        }
        let result = a * b;
        self.hi_reg = result.logical_rshift(32) as i32;
        self.lo_reg = result as i32;
    }

    /// MULTU: HI:LO = rs * rt, unsigned.
    pub fn multu_instruction(&mut self, instruction: i32)
        ensures
            final(self).multu_done(old(self), instruction),
    {
        let rs = register_field(instruction, 21);
        let rt = register_field(instruction, 16);
        let a = (self.general_registers[rs] as u32) as u64;
        let b = (self.general_registers[rt] as u32) as u64;
        proof {
            assert(a * b <= 0xFFFF_FFFE_0000_0001) by (nonlinear_arith)
                requires
                    a <= 0xFFFF_FFFF,
                    b <= 0xFFFF_FFFF,
            ;
        }
        let result = a * b;
        self.hi_reg = (result / 0x1_0000_0000) as i32;
        self.lo_reg = result as i32;
    }

    /// NOR: rd = !(rs | rt).
    pub fn nor_instruction(&mut self, instruction: i32)
        ensures
            final(self).nor_done(old(self), instruction),
    {
        let rs = register_field(instruction, 21);
        let rt = register_field(instruction, 16);
        let rd = register_field(instruction, 11);
        let v = !(self.general_registers[rs] | self.general_registers[rt]);
        self.set_register(rd, v);
    }

    /// OR: rd = rs | rt.
    pub fn or_instruction(&mut self, instruction: i32)
        ensures
            final(self).or_done(old(self), instruction),
    {
        let rs = register_field(instruction, 21);
        let rt = register_field(instruction, 16);
        let rd = register_field(instruction, 11);
        let v = self.general_registers[rs] | self.general_registers[rt];
        self.set_register(rd, v);
    }

    /// ORI: rt = rs | zero-extended immediate.
    pub fn ori_instruction(&mut self, instruction: i32)
        ensures
            final(self).ori_done(old(self), instruction),
    {
        let rs = register_field(instruction, 21);
        let rt = register_field(instruction, 16);
        let v = (instruction & 0xFFFF) | self.general_registers[rs];
        self.set_register(rt, v);
    }

    /// XOR: rd = rs ^ rt.
    pub fn xor_instruction(&mut self, instruction: i32)
        ensures
            final(self).xor_done(old(self), instruction),
    {
        let rs = register_field(instruction, 21);
        let rt = register_field(instruction, 16);
        let rd = register_field(instruction, 11);
        let v = self.general_registers[rs] ^ self.general_registers[rt];
        self.set_register(rd, v);
    }

    /// XORI: rt = rs ^ zero-extended immediate.
    pub fn xori_instruction(&mut self, instruction: i32)
        ensures
            final(self).xori_done(old(self), instruction),
    {
        let rs = register_field(instruction, 21);
        let rt = register_field(instruction, 16);
        let v = (instruction & 0xFFFF) ^ self.general_registers[rs];
        self.set_register(rt, v);
    }

    /// RFE: pops CP0's mode stack.
    pub fn rfe_instruction(&mut self)
        ensures
            final(self).rfe_done(old(self)),
    {
        self.sccp.rfe();
    }

    /// SLL: rd = rt << shamt.
    pub fn sll_instruction(&mut self, instruction: i32)
        ensures
            final(self).sll_done(old(self), instruction),
    {
        let rt = register_field(instruction, 16);
        let rd = register_field(instruction, 11);
        let shamt = register_field(instruction, 6) as i32;
        let v = self.general_registers[rt] << shamt;
        self.set_register(rd, v);
    }

    /// SLLV: rd = rt << (rs & 31).
    pub fn sllv_instruction(&mut self, instruction: i32)
        ensures
            final(self).sllv_done(old(self), instruction),
    {
        let rs = register_field(instruction, 21);
        let rt = register_field(instruction, 16);
        let rd = register_field(instruction, 11);
        let amount_source = self.general_registers[rs];
        let amount = amount_source & 0x1F;
        assert(0 <= amount_source & 0x1F < 32) by (bit_vector);
        let v = self.general_registers[rt] << amount;
        self.set_register(rd, v);
    }

    /// SRA: rd = rt >> shamt, extending the sign.
    pub fn sra_instruction(&mut self, instruction: i32)
        ensures
            final(self).sra_done(old(self), instruction),
    {
        let rt = register_field(instruction, 16);
        let rd = register_field(instruction, 11);
        let shamt = register_field(instruction, 6) as i32;
        let v = self.general_registers[rt] >> shamt;
        self.set_register(rd, v);
    }

    /// SRAV: rd = rt >> (rs & 31), extending the sign.
    pub fn srav_instruction(&mut self, instruction: i32)
        ensures
            final(self).srav_done(old(self), instruction),
    {
        let rs = register_field(instruction, 21);
        let rt = register_field(instruction, 16);
        let rd = register_field(instruction, 11);
        let amount_source = self.general_registers[rs];
        let amount = amount_source & 0x1F;
        assert(0 <= amount_source & 0x1F < 32) by (bit_vector);
        let v = self.general_registers[rt] >> amount;
        self.set_register(rd, v);
    }

    /// SRL: rd = rt >> shamt, with zeros coming in.
    pub fn srl_instruction(&mut self, instruction: i32)
        ensures
            final(self).srl_done(old(self), instruction),
    {
        let rt = register_field(instruction, 16);
        let rd = register_field(instruction, 11);
        let shamt = register_field(instruction, 6) as i32;
        let v = self.general_registers[rt].logical_rshift(shamt);
        self.set_register(rd, v);
    }

    /// SRLV: rd = rt >> (rs & 31), with zeros coming in.
    pub fn srlv_instruction(&mut self, instruction: i32)
        ensures
            final(self).srlv_done(old(self), instruction),
    {
        let rs = register_field(instruction, 21);
        let rt = register_field(instruction, 16);
        let rd = register_field(instruction, 11);
        let amount_source = self.general_registers[rs];
        let amount = amount_source & 0x1F;
        assert(0 <= amount_source & 0x1F < 32) by (bit_vector);
        let v = self.general_registers[rt].logical_rshift(amount);
        self.set_register(rd, v);
    }

    /// SLT: rd = 1 when rs < rt as signed values, else 0.
    pub fn slt_instruction(&mut self, instruction: i32)
        ensures
            final(self).slt_done(old(self), instruction),
    {
        let rs = register_field(instruction, 21);
        let rt = register_field(instruction, 16);
        let rd = register_field(instruction, 11);
        let v: i32 = if self.general_registers[rs] < self.general_registers[rt] {
            1
        } else {
            0
        };
        self.set_register(rd, v);
    }

    /// SLTI: rt = 1 when rs < the sign-extended immediate, else 0.
    pub fn slti_instruction(&mut self, instruction: i32)
        ensures
            final(self).slti_done(old(self), instruction),
    {
        let immediate = Self::signed_immediate(instruction);
        let rs = register_field(instruction, 21);
        let rt = register_field(instruction, 16);
        let v: i32 = if self.general_registers[rs] < immediate {
            1
        } else {
            0
        };
        self.set_register(rt, v);
    }

    /// SLTIU: rt = 1 when rs < the sign-extended immediate as unsigned values, else 0.
    pub fn sltiu_instruction(&mut self, instruction: i32)
        ensures
            final(self).sltiu_done(old(self), instruction),
    {
        let immediate = Self::signed_immediate(instruction) as u32;
        let rs = register_field(instruction, 21);
        let rt = register_field(instruction, 16);
        let v: i32 = if (self.general_registers[rs] as u32) < immediate {
            1
        } else {
            0
        };
        self.set_register(rt, v);
    }

    /// SLTU: rd = 1 when rs < rt as unsigned values, else 0.
    pub fn sltu_instruction(&mut self, instruction: i32)
        ensures
            final(self).sltu_done(old(self), instruction),
    {
        let rs = register_field(instruction, 21);
        let rt = register_field(instruction, 16);
        let rd = register_field(instruction, 11);
        let v: i32 = if (self.general_registers[rs] as u32) < (self.general_registers[rt] as u32) {
            1
        } else {
            0
        };
        self.set_register(rd, v);
    }

    /// SUB: rd = rs - rt, raising OVF and leaving rd alone on signed overflow.
    pub fn sub_instruction(&mut self, instruction: i32)
        ensures
            final(self).sub_done(old(self), instruction),
    {
        let rs = register_field(instruction, 21);
        let rt = register_field(instruction, 16);
        let rd = register_field(instruction, 11);
        let result = self.general_registers[rs] as i64 - self.general_registers[rt] as i64;
        if result < i32::MIN as i64 || result > i32::MAX as i64 {
            self.raise_here(MIPSExceptionReason::OVF);
            return;
        }
        self.set_register(rd, result as i32);
    }

    /// SUBU: rd = rs - rt, wrapping.
    pub fn subu_instruction(&mut self, instruction: i32)
        ensures
            final(self).subu_done(old(self), instruction),
    {
        let rs = register_field(instruction, 21);
        let rt = register_field(instruction, 16);
        let rd = register_field(instruction, 11);
        let result = self.general_registers[rs] as i64 - self.general_registers[rt] as i64;
        self.set_register(rd, result as i32);
    }

    /// SB: stores the low byte of rt at rs + immediate; raises ADES for an
    /// address that the current mode may not access.
    pub fn sb_instruction<B: CpuBridge>(&mut self, bridge: &mut B, instruction: i32)
        ensures
            final(bridge).sync_count() == old(bridge).sync_count(),
            final(bridge).synced_cycles() == old(bridge).synced_cycles(),
            final(self).sb_done(old(self), instruction),
    {
        let rt = register_field(instruction, 16);
        let address = self.data_address(instruction);
        if !self.sccp.is_address_allowed(address as i32) {
            self.raise_address_error(MIPSExceptionReason::ADES, address);
            return;
        }
        let value = 0xFF & self.general_registers[rt];
        self.write_data_value(bridge, R3051Width::BYTE, address as i32, value);
    }

    /// SH: stores the low half word of rt, byte-swapped, at rs + immediate;
    /// raises ADES for a forbidden or odd address.
    pub fn sh_instruction<B: CpuBridge>(&mut self, bridge: &mut B, instruction: i32)
        ensures
            final(bridge).sync_count() == old(bridge).sync_count(),
            final(bridge).synced_cycles() == old(bridge).synced_cycles(),
            final(self).sh_done(old(self), instruction),
    {
        let rt = register_field(instruction, 16);
        let address = self.data_address(instruction);
        if !self.sccp.is_address_allowed(address as i32) || (address as i32) & 1 != 0 {
            self.raise_address_error(MIPSExceptionReason::ADES, address);
            return;
        }
        let source = self.general_registers[rt];
        assert(0 <= 0xFFFF & source < 0x1_0000) by (bit_vector);
        let value = swap_half_word(0xFFFF & source);
        self.write_data_value(bridge, R3051Width::HALFWORD, address as i32, value);
    }

    /// SW: stores rt, byte-swapped into the bus's order, at rs + immediate;
    /// raises ADES for a forbidden or unaligned address.
    pub fn sw_instruction<B: CpuBridge>(&mut self, bridge: &mut B, instruction: i32)
        ensures
            final(bridge).sync_count() == old(bridge).sync_count(),
            final(bridge).synced_cycles() == old(bridge).synced_cycles(),
            final(self).sw_done(old(self), instruction),
    {
        let rt = register_field(instruction, 16);
        let address = self.data_address(instruction);
        if !self.sccp.is_address_allowed(address as i32) || (address as i32) & 3 != 0 {
            self.raise_address_error(MIPSExceptionReason::ADES, address);
            return;
        }
        let value = self.swap_word_endianness(self.general_registers[rt]);
        self.write_data_value(bridge, R3051Width::WORD, address as i32, value);
    }

    /// SWC2: stores GTE data register rt, byte-swapped, at rs + immediate;
    /// raises ADES for a forbidden or unaligned address.
    pub fn swc2_instruction<B: CpuBridge>(&mut self, bridge: &mut B, instruction: i32)
        ensures
            final(bridge).sync_count() == old(bridge).sync_count(),
            final(bridge).synced_cycles() == old(bridge).synced_cycles(),
            final(self).swc2_done(old(self), instruction),
    {
        let rt = register_field(instruction, 16);
        let address = self.data_address(instruction);
        if !self.sccp.is_address_allowed(address as i32) || (address as i32) & 3 != 0 {
            self.raise_address_error(MIPSExceptionReason::ADES, address);
            return;
        }
        let value = self.swap_word_endianness(self.gte.read_data_reg(rt as i32));
        self.write_data_value(bridge, R3051Width::WORD, address as i32, value);
    }

    /// SWL: merges the high bytes of rt into the word holding rs + immediate;
    /// the address needs no alignment but must be allowed (else ADES).
    pub fn swl_instruction<B: CpuBridge>(&mut self, bridge: &mut B, instruction: i32)
        ensures
            final(bridge).sync_count() == old(bridge).sync_count(),
            final(bridge).synced_cycles() == old(bridge).synced_cycles(),
            final(self).swl_done(old(self), instruction),
    {
        let rt = register_field(instruction, 16);
        let address = self.data_address(instruction);
        if !self.sccp.is_address_allowed(address as i32) {
            self.raise_address_error(MIPSExceptionReason::ADES, address);
            return;
        }
        let inverted = !(address as i32);
        assert(0 <= inverted & 0x3 < 4) by (bit_vector);
        let shift = (inverted & 0x3) * 8;
        let current = bridge.read_word((address as i32) & (0xFFFF_FFFCu32 as i32));
        let value = (self.swap_word_endianness(self.general_registers[rt]) << shift) | (current
            & !((0xFFFF_FFFFu32 as i32) << shift));
        self.write_data_value(bridge, R3051Width::WORD, (address as i32) & (0xFFFF_FFFCu32 as i32), value);
    }

    /// SWR: merges the low bytes of rt into the word holding rs + immediate;
    /// the address needs no alignment but must be allowed (else ADES).
    pub fn swr_instruction<B: CpuBridge>(&mut self, bridge: &mut B, instruction: i32)
        ensures
            final(bridge).sync_count() == old(bridge).sync_count(),
            final(bridge).synced_cycles() == old(bridge).synced_cycles(),
            final(self).swr_done(old(self), instruction),
    {
        let rt = register_field(instruction, 16);
        let address = self.data_address(instruction);
        if !self.sccp.is_address_allowed(address as i32) {
            self.raise_address_error(MIPSExceptionReason::ADES, address);
            return;
        }
        let truncated = address as i32;
        assert(0 <= truncated & 0x3 < 4) by (bit_vector);
        let shift = (truncated & 0x3) * 8;
        let current = bridge.read_word((address as i32) & (0xFFFF_FFFCu32 as i32));
        let value = self.swap_word_endianness(self.general_registers[rt]).logical_rshift(shift) | (
        current & !(0xFFFF_FFFFu32 as i32).logical_rshift(shift));
        self.write_data_value(bridge, R3051Width::WORD, (address as i32) & (0xFFFF_FFFCu32 as i32), value);
    }
}

} // verus!
