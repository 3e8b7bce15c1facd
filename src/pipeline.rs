//! Decoding and dispatch of instructions, instruction fetch, interrupt
//! polling and the block loop of the R3051.

use vstd::prelude::*;
use crate::utility::{CustomInteger, SystemBusHolder, logical_rshift_32};
use crate::mips_exception::{MIPSException, MIPSExceptionReason};
use crate::cp0::{read_value, physical_of, cacheable, general_vector, co_processor_usable, kernel_mode};
use crate::cpu::{Cpu, CpuBridge};
use crate::r3051::{
    R3051,
    raised,
    cache_word,
    swapped,
    rs_of,
    rt_of,
    register_field,
    entry_registers,
    polled_cause,
    interrupt_fires,
};

verus! {

/// Whether the primary opcode field `op` names an instruction of this processor.
pub open spec fn primary_known(op: i32) -> bool {
    (0 <= op <= 19) || (32 <= op <= 38) || (40 <= op <= 43) || op == 46 || (48 <= op <= 51) || (
    56 <= op <= 59)
}

/// Whether SPECIAL function field `f` names an instruction.
pub open spec fn special_known(f: i32) -> bool {
    f == 0 || (2 <= f <= 4) || (6 <= f <= 9) || f == 12 || f == 13 || (16 <= f <= 19) || (24
        <= f <= 27) || (32 <= f <= 39) || f == 42 || f == 43
}

/// The co-processor that primary opcode `op` names, when it is one that
/// this processor lacks or that is always unusable here.
pub open spec fn missing_co_processor(op: i32) -> Option<i32> {
    if op == 17 || op == 49 || op == 57 {
        Some(1)
    } else if op == 19 || op == 51 || op == 59 {
        Some(3)
    } else if op == 48 || op == 56 {
        Some(0)
    } else {
        None
    }
}

impl R3051 {
    /// Raises a co-processor unusable exception for co-processor `n`.
    fn raise_co_processor_unusable(&mut self, n: i32, delay_origin: i32)
        ensures
            final(self).exception == raised(
                MIPSException { co_processor_num: n, ..old(self).exception },
                MIPSExceptionReason::CPU,
                old(self).program_counter,
                old(self).prev_was_branch,
                delay_origin,
            ),
            final(self).regs() == old(self).regs(),
            final(self).keeps_core(old(self)),
            final(self).keeps_cache(old(self)),
            final(self).keeps_flow(old(self)),
            final(self).sccp == old(self).sccp,
            final(self).gte == old(self).gte,
            final(self).cycles == old(self).cycles,
            final(self).total_cycles == old(self).total_cycles,
    {
        self.exception.co_processor_num = n;
        self.raise_exception(MIPSExceptionReason::CPU, delay_origin);
    }

    /// Runs the SPECIAL instruction whose function field `instruction`
    /// holds; an unknown function raises RI.
    #[verifier::rlimit(100)]
    fn execute_special(&mut self, instruction: i32, temp_branch_address: i32)
        requires
            old(self).regs()[0] == 0,
        ensures
            final(self).regs()[0] == 0,
            final(self).program_counter == old(self).program_counter,
            final(self).prev_was_branch == old(self).prev_was_branch,
            !special_known(instruction & 0x3F) ==> final(self).exception == raised(
                old(self).exception,
                MIPSExceptionReason::RI,
                old(self).program_counter,
                old(self).prev_was_branch,
                temp_branch_address,
            ) && final(self).regs() == old(self).regs(),
            instruction & 0x3F == 0 ==> final(self).sll_done(old(self), instruction),
            instruction & 0x3F == 2 ==> final(self).srl_done(old(self), instruction),
            instruction & 0x3F == 3 ==> final(self).sra_done(old(self), instruction),
            instruction & 0x3F == 4 ==> final(self).sllv_done(old(self), instruction),
            instruction & 0x3F == 6 ==> final(self).srlv_done(old(self), instruction),
            instruction & 0x3F == 7 ==> final(self).srav_done(old(self), instruction),
            instruction & 0x3F == 8 ==> final(self).jr_done(old(self), instruction),
            instruction & 0x3F == 9 ==> final(self).jalr_done(old(self), instruction),
            instruction & 0x3F == 12 ==> final(self).syscall_done(old(self)),
            instruction & 0x3F == 13 ==> final(self).break_done(old(self)),
            instruction & 0x3F == 16 ==> final(self).mfhi_done(old(self), instruction),
            instruction & 0x3F == 17 ==> final(self).mthi_done(old(self), instruction),
            instruction & 0x3F == 18 ==> final(self).mflo_done(old(self), instruction),
            instruction & 0x3F == 19 ==> final(self).mtlo_done(old(self), instruction),
            instruction & 0x3F == 24 ==> final(self).mult_done(old(self), instruction),
            instruction & 0x3F == 25 ==> final(self).multu_done(old(self), instruction),
            instruction & 0x3F == 26 ==> final(self).div_done(old(self), instruction),
            instruction & 0x3F == 27 ==> final(self).divu_done(old(self), instruction),
            instruction & 0x3F == 32 ==> final(self).add_done(old(self), instruction),
            instruction & 0x3F == 33 ==> final(self).addu_done(old(self), instruction),
            instruction & 0x3F == 34 ==> final(self).sub_done(old(self), instruction),
            instruction & 0x3F == 35 ==> final(self).subu_done(old(self), instruction),
            instruction & 0x3F == 36 ==> final(self).and_done(old(self), instruction),
            instruction & 0x3F == 37 ==> final(self).or_done(old(self), instruction),
            instruction & 0x3F == 38 ==> final(self).xor_done(old(self), instruction),
            instruction & 0x3F == 39 ==> final(self).nor_done(old(self), instruction),
            instruction & 0x3F == 42 ==> final(self).slt_done(old(self), instruction),
            instruction & 0x3F == 43 ==> final(self).sltu_done(old(self), instruction),
    {
        proof {
            crate::r3051::lemma_fields_bounded(instruction);
        }
        let special = instruction & 0x3F;
        if special == 0 {
            self.sll_instruction(instruction);
        } else if special == 2 {
            self.srl_instruction(instruction);
        } else if special == 3 {
            self.sra_instruction(instruction);
        } else if special == 4 {
            self.sllv_instruction(instruction);
        } else if special == 6 {
            self.srlv_instruction(instruction);
        } else if special == 7 {
            self.srav_instruction(instruction);
        } else if special == 8 {
            self.jr_instruction(instruction);
        } else if special == 9 {
            self.jalr_instruction(instruction);
        } else if special == 12 {
            self.syscall_instruction();
        } else if special == 13 {
            self.break_instruction();
        } else if special == 16 {
            self.mfhi_instruction(instruction);
        } else if special == 17 {
            self.mthi_instruction(instruction);
        } else if special == 18 {
            self.mflo_instruction(instruction);
        } else if special == 19 {
            self.mtlo_instruction(instruction);
        } else if special == 24 {
            self.mult_instruction(instruction);
        } else if special == 25 {
            self.multu_instruction(instruction);
        } else if special == 26 {
            self.div_instruction(instruction);
        } else if special == 27 {
            self.divu_instruction(instruction);
        } else if special == 32 {
            self.add_instruction(instruction);
        } else if special == 33 {
            self.addu_instruction(instruction);
        } else if special == 34 {
            self.sub_instruction(instruction);
        } else if special == 35 {
            self.subu_instruction(instruction);
        } else if special == 36 {
            self.and_instruction(instruction);
        } else if special == 37 {
            self.or_instruction(instruction);
        } else if special == 38 {
            self.xor_instruction(instruction);
        } else if special == 39 {
            self.nor_instruction(instruction);
        } else if special == 42 {
            self.slt_instruction(instruction);
        } else if special == 43 {
            self.sltu_instruction(instruction);
        } else {
            self.raise_exception(MIPSExceptionReason::RI, temp_branch_address);
        }
    }

    /// Decodes `instruction` and runs its handler. Unknown instructions raise
    /// RI; instructions of co-processors 1 and 3, and of co-processors 0 or 2
    /// while unusable, raise CPU. `temp_branch_address` is the exception
    /// origin for an instruction in a branch delay slot. Register 0 stays zero.
    #[verifier::rlimit(100)]
    pub fn execute_opcode<B: CpuBridge>(&mut self, bridge: &mut B, instruction: i32, temp_branch_address: i32)
        requires
            old(self).regs()[0] == 0,
        ensures
            final(bridge).sync_count() == old(bridge).sync_count(),
            final(bridge).synced_cycles() == old(bridge).synced_cycles(),
            final(self).regs()[0] == 0,
            final(self).program_counter == old(self).program_counter,
            final(self).prev_was_branch == old(self).prev_was_branch,
            ({
                let op = logical_rshift_32(instruction, 26);
                let f = instruction & 0x3F;
                &&& (!primary_known(op) || (op == 0 && !special_known(f))) ==> {
                    &&& final(self).exception == raised(
                        old(self).exception,
                        MIPSExceptionReason::RI,
                        old(self).program_counter,
                        old(self).prev_was_branch,
                        temp_branch_address,
                    )
                    &&& final(self).regs() == old(self).regs()
                }
                &&& op == 16 && !co_processor_usable(old(self).sccp.status(), 0) && !kernel_mode(
                    old(self).sccp.status(),
                ) ==> final(self).exception == raised(
                    MIPSException { co_processor_num: 0, ..old(self).exception },
                    MIPSExceptionReason::CPU,
                    old(self).program_counter,
                    old(self).prev_was_branch,
                    temp_branch_address,
                )
                &&& op == 18 && !co_processor_usable(old(self).sccp.status(), 2) ==> final(self).exception == raised(
                    MIPSException { co_processor_num: 2, ..old(self).exception },
                    MIPSExceptionReason::CPU,
                    old(self).program_counter,
                    old(self).prev_was_branch,
                    temp_branch_address,
                )
                &&& op == 0 && f == 0 ==> final(self).sll_done(old(self), instruction)
                &&& op == 0 && f == 2 ==> final(self).srl_done(old(self), instruction)
                &&& op == 0 && f == 3 ==> final(self).sra_done(old(self), instruction)
                &&& op == 0 && f == 4 ==> final(self).sllv_done(old(self), instruction)
                &&& op == 0 && f == 6 ==> final(self).srlv_done(old(self), instruction)
                &&& op == 0 && f == 7 ==> final(self).srav_done(old(self), instruction)
                &&& op == 0 && f == 8 ==> final(self).jr_done(old(self), instruction)
                &&& op == 0 && f == 9 ==> final(self).jalr_done(old(self), instruction)
                &&& op == 0 && f == 12 ==> final(self).syscall_done(old(self))
                &&& op == 0 && f == 13 ==> final(self).break_done(old(self))
                &&& op == 0 && f == 16 ==> final(self).mfhi_done(old(self), instruction)
                &&& op == 0 && f == 17 ==> final(self).mthi_done(old(self), instruction)
                &&& op == 0 && f == 18 ==> final(self).mflo_done(old(self), instruction)
                &&& op == 0 && f == 19 ==> final(self).mtlo_done(old(self), instruction)
                &&& op == 0 && f == 24 ==> final(self).mult_done(old(self), instruction)
                &&& op == 0 && f == 25 ==> final(self).multu_done(old(self), instruction)
                &&& op == 0 && f == 26 ==> final(self).div_done(old(self), instruction)
                &&& op == 0 && f == 27 ==> final(self).divu_done(old(self), instruction)
                &&& op == 0 && f == 32 ==> final(self).add_done(old(self), instruction)
                &&& op == 0 && f == 33 ==> final(self).addu_done(old(self), instruction)
                &&& op == 0 && f == 34 ==> final(self).sub_done(old(self), instruction)
                &&& op == 0 && f == 35 ==> final(self).subu_done(old(self), instruction)
                &&& op == 0 && f == 36 ==> final(self).and_done(old(self), instruction)
                &&& op == 0 && f == 37 ==> final(self).or_done(old(self), instruction)
                &&& op == 0 && f == 38 ==> final(self).xor_done(old(self), instruction)
                &&& op == 0 && f == 39 ==> final(self).nor_done(old(self), instruction)
                &&& op == 0 && f == 42 ==> final(self).slt_done(old(self), instruction)
                &&& op == 0 && f == 43 ==> final(self).sltu_done(old(self), instruction)
                &&& op == 1 && rt_of(instruction) == 0 ==> final(self).bltz_done(old(self), instruction)
                &&& op == 1 && rt_of(instruction) == 1 ==> final(self).bgez_done(old(self), instruction)
                &&& op == 1 && rt_of(instruction) == 16 ==> final(self).bltzal_done(old(self), instruction)
                &&& op == 1 && rt_of(instruction) == 17 ==> final(self).bgezal_done(old(self), instruction)
                &&& op == 2 ==> final(self).j_done(old(self), instruction)
                &&& op == 3 ==> final(self).jal_done(old(self), instruction)
                &&& op == 4 ==> final(self).beq_done(old(self), instruction)
                &&& op == 5 ==> final(self).bne_done(old(self), instruction)
                &&& op == 6 ==> final(self).blez_done(old(self), instruction)
                &&& op == 7 ==> final(self).bgtz_done(old(self), instruction)
                &&& op == 8 ==> final(self).addi_done(old(self), instruction)
                &&& op == 9 ==> final(self).addiu_done(old(self), instruction)
                &&& op == 10 ==> final(self).slti_done(old(self), instruction)
                &&& op == 11 ==> final(self).sltiu_done(old(self), instruction)
                &&& op == 12 ==> final(self).andi_done(old(self), instruction)
                &&& op == 13 ==> final(self).ori_done(old(self), instruction)
                &&& op == 14 ==> final(self).xori_done(old(self), instruction)
                &&& op == 15 ==> final(self).lui_done(old(self), instruction)
                &&& op == 32 ==> final(self).lb_done(old(self), instruction)
                &&& op == 33 ==> final(self).lh_done(old(self), instruction)
                &&& op == 34 ==> final(self).lwl_done(old(self), instruction)
                &&& op == 35 ==> final(self).lw_done(old(self), instruction)
                &&& op == 36 ==> final(self).lbu_done(old(self), instruction)
                &&& op == 37 ==> final(self).lhu_done(old(self), instruction)
                &&& op == 38 ==> final(self).lwr_done(old(self), instruction)
                &&& op == 40 ==> final(self).sb_done(old(self), instruction)
                &&& op == 41 ==> final(self).sh_done(old(self), instruction)
                &&& op == 42 ==> final(self).swl_done(old(self), instruction)
                &&& op == 43 ==> final(self).sw_done(old(self), instruction)
                &&& op == 46 ==> final(self).swr_done(old(self), instruction)
                &&& op == 50 ==> final(self).lwc2_done(old(self), instruction)
                &&& op == 58 ==> final(self).swc2_done(old(self), instruction)
                &&& op == 16 && (co_processor_usable(old(self).sccp.status(), 0) || kernel_mode(
                    old(self).sccp.status(),
                )) ==> {
                    &&& instruction & 0x1F == 16 ==> final(self).rfe_done(old(self))
                    &&& instruction & 0x1F != 16 && rs_of(instruction) == 0 ==> final(self).mf0_done(old(self), instruction)
                    &&& instruction & 0x1F != 16 && rs_of(instruction) == 4 ==> final(self).mt0_done(old(self), instruction)
                }
                &&& op == 18 && co_processor_usable(old(self).sccp.status(), 2) ==> {
                    &&& rs_of(instruction) == 0 ==> final(self).mf2_done(old(self), instruction)
                    &&& rs_of(instruction) == 2 ==> final(self).cf2_done(old(self), instruction)
                    &&& rs_of(instruction) == 4 ==> final(self).mt2_done(old(self), instruction)
                    &&& rs_of(instruction) == 6 ==> final(self).ct2_done(old(self), instruction)
                    &&& rs_of(instruction) == 8 && rt_of(instruction) == 0 ==> final(self).bc2f_done(old(self), instruction)
                    &&& rs_of(instruction) == 8 && rt_of(instruction) == 1 ==> final(self).bc2t_done(old(self), instruction)
                    &&& rs_of(instruction) >= 16 ==> final(self).gte_cycles == crate::cp2::gte_cycles(instruction & 0x3F)
                        && final(self).regs() == old(self).regs() && final(self).gte.gte_done(&old(self).gte, instruction)
                }
                &&& missing_co_processor(op) matches Some(n) ==> {
                    &&& final(self).exception == raised(
                        MIPSException { co_processor_num: n, ..old(self).exception },
                        MIPSExceptionReason::CPU,
                        old(self).program_counter,
                        old(self).prev_was_branch,
                        temp_branch_address,
                    )
                    &&& final(self).regs() == old(self).regs()
                }
            }),
    {
        proof {
            crate::r3051::lemma_fields_bounded(instruction);
        }
        let opcode = instruction.logical_rshift(26);
        if opcode == 0 {
            self.execute_special(instruction, temp_branch_address);
        } else if opcode == 1 {
            let condition = register_field(instruction, 16);
            if condition == 0 {
                self.bltz_instruction(instruction);
            } else if condition == 1 {
                self.bgez_instruction(instruction);
            } else if condition == 16 {
                self.bltzal_instruction(instruction);
            } else if condition == 17 {
                self.bgezal_instruction(instruction);
            }
        } else if opcode == 2 {
            self.j_instruction(instruction);
        } else if opcode == 3 {
            self.jal_instruction(instruction);
        } else if opcode == 4 {
            self.beq_instruction(instruction);
        } else if opcode == 5 {
            self.bne_instruction(instruction);
        } else if opcode == 6 {
            self.blez_instruction(instruction);
        } else if opcode == 7 {
            self.bgtz_instruction(instruction);
        } else if opcode == 8 {
            self.addi_instruction(instruction);
        } else if opcode == 9 {
            self.addiu_instruction(instruction);
        } else if opcode == 10 {
            self.slti_instruction(instruction);
        } else if opcode == 11 {
            self.sltiu_instruction(instruction);
        } else if opcode == 12 {
            self.andi_instruction(instruction);
        } else if opcode == 13 {
            self.ori_instruction(instruction);
        } else if opcode == 14 {
            self.xori_instruction(instruction);
        } else if opcode == 15 {
            self.lui_instruction(instruction);
        } else if opcode == 16 {
            if !self.sccp.is_co_processor_usable(0) && !self.sccp.are_we_in_kernel_mode() {
                self.raise_co_processor_unusable(0, temp_branch_address);
            } else if instruction & 0x1F == 16 {
                self.rfe_instruction();
            } else {
                let operation = register_field(instruction, 21);
                if operation == 0 {
                    self.mf0_instruction(instruction);
                } else if operation == 4 {
                    self.mt0_instruction(instruction);
                } else {
                    self.raise_exception(MIPSExceptionReason::RI, temp_branch_address);
                }
            }
        } else if opcode == 17 || opcode == 49 || opcode == 57 {
            self.raise_co_processor_unusable(1, temp_branch_address);
        } else if opcode == 18 {
            if !self.sccp.is_co_processor_usable(2) {
                self.raise_co_processor_unusable(2, temp_branch_address);
            } else {
                let operation = register_field(instruction, 21);
                if operation == 0 {
                    self.mf2_instruction(instruction);
                } else if operation == 2 {
                    self.cf2_instruction(instruction);
                } else if operation == 4 {
                    self.mt2_instruction(instruction);
                } else if operation == 6 {
                    self.ct2_instruction(instruction);
                } else if operation == 8 {
                    let condition = register_field(instruction, 16);
                    if condition == 0 {
                        self.bc2f_instruction(instruction);
                    } else if condition == 1 {
                        self.bc2t_instruction(instruction);
                    }
                } else if operation >= 16 {
                    self.gte_cycles = self.gte.gte_function(instruction);
                }
            }
        } else if opcode == 19 || opcode == 51 || opcode == 59 {
            self.raise_co_processor_unusable(3, temp_branch_address);
        } else if opcode == 32 {
            self.lb_instruction(bridge, instruction);
        } else if opcode == 33 {
            self.lh_instruction(bridge, instruction);
        } else if opcode == 34 {
            self.lwl_instruction(bridge, instruction);
        } else if opcode == 35 {
            self.lw_instruction(bridge, instruction);
        } else if opcode == 36 {
            self.lbu_instruction(bridge, instruction);
        } else if opcode == 37 {
            self.lhu_instruction(bridge, instruction);
        } else if opcode == 38 {
            self.lwr_instruction(bridge, instruction);
        } else if opcode == 40 {
            self.sb_instruction(bridge, instruction);
        } else if opcode == 41 {
            self.sh_instruction(bridge, instruction);
        } else if opcode == 42 {
            self.swl_instruction(bridge, instruction);
        } else if opcode == 43 {
            self.sw_instruction(bridge, instruction);
        } else if opcode == 46 {
            self.swr_instruction(bridge, instruction);
        } else if opcode == 50 {
            self.lwc2_instruction(bridge, instruction);
        } else if opcode == 58 {
            self.swc2_instruction(bridge, instruction);
        } else if opcode == 48 || opcode == 56 {
            self.raise_co_processor_unusable(0, temp_branch_address);
        } else {
            self.raise_exception(MIPSExceptionReason::RI, temp_branch_address);
        }
    }
}

/// Whether the interrupt controller has a pending, unmasked interrupt,
/// from the raw status and mask words it returns.
pub open spec fn interrupt_pending_of(status_word: i32, mask_word: i32) -> bool {
    (swapped(status_word & 0x7FF) & swapped(mask_word & 0x7FF)) != 0
}

impl Cpu for R3051 {
    open spec fn bus_holder(&self) -> SystemBusHolder {
        self.system_bus_holder
    }

    fn set_system_bus_holder(&mut self, holder: SystemBusHolder) {
        self.system_bus_holder = holder;
    }

    fn get_system_bus_holder(&self) -> (r: SystemBusHolder) {
        self.system_bus_holder
    }
}

impl R3051 {
    /// Fetches the instruction word at virtual `address`. A forbidden or
    /// unaligned address raises ADEL, which is taken at once, and gives -1.
    /// A cacheable address with the cache enabled reads the cache, refilling
    /// the line on a miss; other addresses read the bus. Whenever the bus is
    /// needed but held by another agent, nothing happens and -1 comes back,
    /// so the caller stalls a cycle and retries.
    #[verifier::rlimit(80)]
    pub fn read_instruction_word<B: CpuBridge>(&mut self, bridge: &mut B, address: i32, temp_branch_address: i32) -> (r: i64)
        ensures
            final(bridge).sync_count() == old(bridge).sync_count(),
            final(bridge).synced_cycles() == old(bridge).synced_cycles(),
            -1 <= r <= 0xFFFF_FFFF,
            final(self).regs() == old(self).regs(),
            final(self).gte == old(self).gte,
            !(address >= 0 || crate::cp0::kernel_mode(old(self).sccp.status())) || address & 3 != 0 ==> {
                let e = raised(
                    MIPSException { bad_address: address, ..old(self).exception },
                    MIPSExceptionReason::ADEL,
                    address,
                    old(self).prev_was_branch,
                    temp_branch_address,
                );
                &&& r == -1
                &&& final(self).exception.is_empty()
                &&& final(self).sccp.regs() == entry_registers(old(self).sccp.regs(), e)
                &&& final(self).program_counter == general_vector(old(self).sccp.status())
            },
            (address >= 0 || crate::cp0::kernel_mode(old(self).sccp.status())) && address & 3 == 0 ==> {
                &&& final(self).sccp == old(self).sccp
                &&& final(self).exception == old(self).exception
                &&& final(self).program_counter == old(self).program_counter
                &&& final(self).keeps_flow(old(self))
                &&& old(self).system_bus_holder == SystemBusHolder::CPU ==> r >= 0
                &&& *final(bridge) == *old(bridge)
                &&& ({
                    let pa = physical_of(address);
                    let cached = cacheable(address) && old(bridge).icache_on();
                    &&& cached && old(self).cache_hit(pa) ==> r == crate::r3051::unsigned(
                        cache_word(old(self).instruction_cache_data@, (pa & 0xFFC) as int),
                    ) && *final(self) == *old(self)
                    &&& !(cached && old(self).cache_hit(pa)) && old(self).system_bus_holder
                        != SystemBusHolder::CPU ==> r == -1 && *final(self) == *old(self)
                    &&& cached && !old(self).cache_hit(pa) && old(self).system_bus_holder
                        == SystemBusHolder::CPU ==> {
                        &&& final(self).advanced_by(old(self), old(bridge).stall_of(pa))
                        &&& r == crate::r3051::unsigned(
                            cache_word(final(self).instruction_cache_data@, (pa & 0xFFC) as int),
                        )
                        &&& !old(self).isolated() ==> final(self).cache_hit(pa)
                            && final(self).refilled_from(old(self), *old(bridge), pa)
                    }
                    &&& !cached && old(self).system_bus_holder == SystemBusHolder::CPU ==> {
                        &&& final(self).advanced_by(old(self), old(bridge).stall_of(pa))
                        &&& r == crate::r3051::unsigned(old(bridge).word_at(pa))
                        &&& final(self).keeps_cache(old(self))
                    }
                })
            },
    {
        let allowed = self.sccp.is_address_allowed(address);
        if !allowed || address & 3 != 0 {
            self.exception.bad_address = address;
            self.exception.exception_reason = MIPSExceptionReason::ADEL;
            self.exception.is_in_branch_delay_slot = self.prev_was_branch;
            self.exception.program_counter_origin = if self.prev_was_branch {
                temp_branch_address
            } else {
                address
            };
            self.handle_exception();
            return -1;
        }
        let instruction_cache_enabled = bridge.instruction_cache_enabled();
        let physical_address = self.sccp.virtual_to_physical(address);
        let word = if self.sccp.is_cacheable(address) && instruction_cache_enabled {
            if self.check_for_instruction_cache_hit(physical_address) {
                self.read_instruction_cache_word(physical_address)
            } else if self.get_system_bus_holder() != SystemBusHolder::CPU {
                return -1;
            } else {
                let stall_cycles = bridge.how_many_stall_cycles(physical_address);
                self.add_cycles(stall_cycles);
                self.refill_instruction_cache_line(bridge, physical_address);
                self.read_instruction_cache_word(physical_address)
            }
        } else if self.get_system_bus_holder() != SystemBusHolder::CPU {
            return -1;
        } else {
            let stall_cycles = bridge.how_many_stall_cycles(physical_address);
            self.add_cycles(stall_cycles);
            bridge.read_word(physical_address)
        };
        (word as u32) as i64
    }

    /// Whether the interrupt controller's raw status and mask words show a
    /// pending, unmasked interrupt.
    pub fn interrupt_pending(&self, status_word: i32, mask_word: i32) -> (r: bool)
        ensures
            r == interrupt_pending_of(status_word, mask_word),
    {
        let status = self.swap_word_endianness(status_word & 0x7FF);
        let mask = self.swap_word_endianness(mask_word & 0x7FF);
        (status & mask) != 0
    }

    /// Polls the interrupt controller: advances the console's interrupt
    /// counters, mirrors whether an unmasked hardware interrupt is pending
    /// into Cause bit 10, and, when interrupts are enabled and Status's mask
    /// lets a pending one through, raises INT and takes it at once.
    /// Returns whether an interrupt was taken.
    pub fn handle_interrupts<B: CpuBridge>(&mut self, bridge: &mut B) -> (r: bool)
        ensures
            final(bridge).sync_count() == old(bridge).sync_count(),
            final(bridge).synced_cycles() == old(bridge).synced_cycles(),
            final(self).regs() == old(self).regs(),
            final(self).gte == old(self).gte,
            ({
                    let pending = interrupt_pending_of(
                        final(bridge).word_at(0x1F80_1070),
                        final(bridge).word_at(0x1F80_1074),
                    );
                    let regs1 = old(self).sccp.regs().update(
                        13,
                        polled_cause(read_value(old(self).sccp.regs(), 13), pending),
                    );
                    if interrupt_fires(read_value(regs1, 12), read_value(regs1, 13)) {
                        &&& r
                        &&& final(self).exception.is_empty()
                        &&& final(self).sccp.regs() == entry_registers(
                            regs1,
                            raised(
                                old(self).exception,
                                MIPSExceptionReason::INT,
                                old(self).program_counter,
                                old(self).prev_was_branch,
                                old(self).program_counter,
                            ),
                        )
                        &&& final(self).program_counter == general_vector(regs1[12])
                        &&& !final(self).prev_was_branch
                    } else {
                        &&& !r
                        &&& final(self).sccp.regs() == regs1
                        &&& final(self).exception == old(self).exception
                        &&& final(self).program_counter == old(self).program_counter
                        &&& final(self).prev_was_branch == old(self).prev_was_branch
                        &&& final(self).jump_address == old(self).jump_address
                        &&& final(self).jump_pending == old(self).jump_pending
                        &&& final(self).is_branch == old(self).is_branch
                    }
                }),
    {
        bridge.increment_interrupt_counters();
        let pending = self.interrupt_pending(bridge.read_word(0x1F80_1070), bridge.read_word(0x1F80_1074));
        let cause = self.sccp.read_reg(13);
        let new_cause = if pending {
            cause | 0x400
        } else {
            cause & (0xFFFF_FBFFu32 as i32)
        };
        self.sccp.write_reg(13, new_cause, true);
        let status_register = self.sccp.read_reg(12);
        let cause_register = self.sccp.read_reg(13);
        assert(self.sccp.regs() == old(self).sccp.regs().update(
            13,
            polled_cause(read_value(old(self).sccp.regs(), 13), pending),
        ));
        if (status_register & 0x1) == 0x1 && ((cause_register & 0x0000_FF00) & (status_register
            & 0x0000_FF00)) != 0 {
            self.exception.exception_reason = MIPSExceptionReason::INT;
            self.exception.program_counter_origin = self.program_counter;
            self.exception.is_in_branch_delay_slot = self.prev_was_branch;
            self.handle_exception();
            return true;
        }
        false
    }

    /// Runs one instruction step: fetch, execute, exception and interrupt
    /// handling, then the program counter moves on (to the pending jump
    /// once its delay slot has run). Reports the step's cycles to the
    /// bridge. Returns whether the step completed the delay slot of a branch,
    /// which ends the block.
    #[verifier::rlimit(60)]
    pub fn execute_step<B: CpuBridge>(&mut self, bridge: &mut B) -> (done: bool)
        requires
            old(self).regs()[0] == 0,
        ensures
            final(self).regs()[0] == 0,
            done ==> final(self).prev_was_branch && !final(self).is_branch,
            final(bridge).sync_count() == (if old(bridge).sync_count() < u64::MAX {
                (old(bridge).sync_count() + 1) as u64
            } else {
                u64::MAX
            }),
            final(bridge).synced_cycles() == (old(bridge).synced_cycles() + final(self).cycles) as i64,
            old(self).system_bus_holder == SystemBusHolder::CPU && (old(self).program_counter >= 0
                || kernel_mode(old(self).sccp.status())) && old(self).program_counter & 3 == 0 ==> {
                &&& done == final(self).prev_was_branch
                &&& final(self).program_counter == (crate::r3051::unsigned(old(self).program_counter)
                    + 4) as i32 || final(self).program_counter == final(self).jump_address
                    || final(self).program_counter == 0x8000_0080u32 as i32
                    || final(self).program_counter == 0xBFC0_0180u32 as i32
                    || final(self).program_counter == 0xBFC0_0000u32 as i32
            },
    {
        self.cycles = 0;
        let temp_address = (((self.program_counter as u32) as i64) - 4) as i32;
        let pc = self.program_counter;
        let fetched = self.read_instruction_word(bridge, pc, temp_address);
        if fetched == -1 {
            self.add_cycles(1);
            bridge.append_sync_cycles(self.cycles);
            return false;
        }
        let instruction = self.swap_word_endianness(fetched as i32);
        self.execute_opcode(bridge, instruction, temp_address);
        if self.handle_exception() {
            self.add_cycles(1);
            bridge.append_sync_cycles(self.cycles);
            return false;
        }
        if self.is_branch && self.handle_interrupts(bridge) {
            self.add_cycles(1);
            bridge.append_sync_cycles(self.cycles);
            return false;
        }
        if self.jump_pending && self.prev_was_branch {
            self.program_counter = self.jump_address;
            self.jump_pending = false;
        } else {
            self.program_counter = (((self.program_counter as u32) as i64) + 4) as i32;
        }
        let cycles_to_add = if self.gte_cycles == 0 {
            1
        } else {
            self.gte_cycles
        };
        self.add_cycles(cycles_to_add);
        self.gte_cycles = 0;
        self.prev_was_branch = self.is_branch;
        self.is_branch = false;
        bridge.append_sync_cycles(self.cycles);
        self.prev_was_branch
    }

    /// Runs instruction steps until one completes the delay slot of a branch,
    /// and returns the cycles that the block took (the count then restarts).
    /// Every step is reported to the bridge once. Gives up, returning what it
    /// has counted, after `u64::MAX` steps (the bridge's step count is then
    /// saturated); otherwise the block ends with the branch's delay slot done
    /// and no branch under way.
    pub fn execute_instructions<B: CpuBridge>(&mut self, bridge: &mut B) -> (r: i64)
        requires
            old(self).regs()[0] == 0,
        ensures
            final(self).regs()[0] == 0,
            final(self).total_cycles == 0,
            old(bridge).sync_count() < u64::MAX ==> final(bridge).sync_count() > old(bridge).sync_count(),
            (final(self).prev_was_branch && !final(self).is_branch) || final(bridge).sync_count()
                == u64::MAX,
    {
        let mut steps: u64 = 0;
        let mut finished = false;
        while !finished && steps < u64::MAX
            invariant
                self.regs()[0] == 0,
                bridge.sync_count() == (if old(bridge).sync_count() + steps < u64::MAX {
                    old(bridge).sync_count() + steps
                } else {
                    u64::MAX as int
                }),
                finished ==> steps >= 1 && self.prev_was_branch && !self.is_branch,
            decreases u64::MAX - steps,
        {
            finished = self.execute_step(bridge);
            steps = steps + 1;
        }
        let ret_val = self.total_cycles;
        self.total_cycles = 0;
        ret_val
    }
}

} // verus!
