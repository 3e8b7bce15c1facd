use philpsx::controllers::{Controllers, PsxControllers};
use philpsx::cp0::CP0;
use philpsx::cp2::CP2;
use philpsx::cpu::{Cpu, CpuBridge};
use philpsx::mips_exception::{MIPSException, MIPSExceptionReason};
use philpsx::motherboard::{MotherboardComponents, PsxMotherboard, BIOS_SIZE};
use philpsx::r3051::R3051;
use philpsx::spu::{PsxSpu, Spu};
use philpsx::utility::SystemBusHolder;

// A small bus: 64 KiB of RAM from address 0, zero everywhere else, and an
// interrupt controller whose status and mask registers can be set.
struct SmallBus {
    ram: Vec<i8>,
    byte_reads: usize,
    interrupt_status: i32,
    interrupt_mask: i32,
    cycles_seen: Vec<i32>,
}

impl SmallBus {
    fn new() -> Self {
        SmallBus {
            ram: vec![0; 0x10000],
            byte_reads: 0,
            interrupt_status: 0,
            interrupt_mask: 0,
            cycles_seen: vec![],
        }
    }

    fn put_instruction(&mut self, address: usize, instruction: u32) {
        // Instructions sit in memory least significant byte first.
        self.ram[address] = instruction as u8 as i8;
        self.ram[address + 1] = (instruction >> 8) as u8 as i8;
        self.ram[address + 2] = (instruction >> 16) as u8 as i8;
        self.ram[address + 3] = (instruction >> 24) as u8 as i8;
    }
}

impl CpuBridge for SmallBus {
    fn sync_count(&self) -> u64 {
        self.cycles_seen.len() as u64
    }

    fn synced_cycles(&self) -> i64 {
        self.cycles_seen.iter().fold(0_i64, |sum, c| sum.wrapping_add(*c as i64))
    }

    fn stall_of(&self, address: i32) -> i32 {
        self.how_many_stall_cycles(address)
    }

    fn increments(&self, address: i64) -> bool {
        self.ok_to_increment(address)
    }

    fn scratchpad_on(&self) -> bool {
        self.scratchpad_enabled()
    }

    fn icache_on(&self) -> bool {
        self.instruction_cache_enabled()
    }

    fn byte_at(&self, address: i32) -> i8 {
        self.read_byte(address)
    }

    fn word_at(&self, address: i32) -> i32 {
        self.read_word(address)
    }

    fn append_sync_cycles(&mut self, cycles: i32) {
        self.cycles_seen.push(cycles);
    }

    fn how_many_stall_cycles(&self, _address: i32) -> i32 {
        0
    }

    fn ok_to_increment(&self, _address: i64) -> bool {
        true
    }

    fn scratchpad_enabled(&self) -> bool {
        false
    }

    fn instruction_cache_enabled(&self) -> bool {
        true
    }

    fn read_byte(&self, address: i32) -> i8 {
        let a = address as u32 as usize;
        if a < self.ram.len() { self.ram[a] } else { 0 }
    }

    fn read_word(&self, address: i32) -> i32 {
        match address as u32 {
            0x1F80_1070 => self.interrupt_status,
            0x1F80_1074 => self.interrupt_mask,
            a => {
                let a = (a & !3) as usize;
                if a + 3 < self.ram.len() {
                    (((self.ram[a] as i32) & 0xFF) << 24)
                        | (((self.ram[a + 1] as i32) & 0xFF) << 16)
                        | (((self.ram[a + 2] as i32) & 0xFF) << 8)
                        | ((self.ram[a + 3] as i32) & 0xFF)
                } else {
                    0
                }
            }
        }
    }

    fn write_byte(&mut self, address: i32, value: i8) {
        let a = address as u32 as usize;
        if a < self.ram.len() {
            self.ram[a] = value;
        }
    }

    fn write_word(&mut self, address: i32, value: i32) {
        let a = (address as u32 & !3) as usize;
        if a + 3 < self.ram.len() {
            self.ram[a] = (value >> 24) as i8;
            self.ram[a + 1] = (value >> 16) as i8;
            self.ram[a + 2] = (value >> 8) as i8;
            self.ram[a + 3] = value as i8;
        }
    }

    fn increment_interrupt_counters(&mut self) {}
}

// A bus that counts byte reads, to see how many bytes a refill fetches.
struct CountingBus {
    inner: SmallBus,
    reads: std::cell::Cell<usize>,
}

impl CpuBridge for CountingBus {
    fn sync_count(&self) -> u64 {
        self.inner.sync_count()
    }

    fn synced_cycles(&self) -> i64 {
        self.inner.synced_cycles()
    }

    fn stall_of(&self, address: i32) -> i32 {
        self.how_many_stall_cycles(address)
    }

    fn increments(&self, address: i64) -> bool {
        self.ok_to_increment(address)
    }

    fn scratchpad_on(&self) -> bool {
        self.scratchpad_enabled()
    }

    fn icache_on(&self) -> bool {
        self.instruction_cache_enabled()
    }

    fn byte_at(&self, address: i32) -> i8 {
        self.inner.read_byte(address)
    }

    fn word_at(&self, address: i32) -> i32 {
        self.read_word(address)
    }

    fn append_sync_cycles(&mut self, cycles: i32) {
        self.inner.append_sync_cycles(cycles);
    }
    fn how_many_stall_cycles(&self, address: i32) -> i32 {
        self.inner.how_many_stall_cycles(address)
    }
    fn ok_to_increment(&self, address: i64) -> bool {
        self.inner.ok_to_increment(address)
    }
    fn scratchpad_enabled(&self) -> bool {
        false
    }
    fn instruction_cache_enabled(&self) -> bool {
        true
    }
    fn read_byte(&self, address: i32) -> i8 {
        self.reads.set(self.reads.get() + 1);
        self.inner.read_byte(address)
    }
    fn read_word(&self, address: i32) -> i32 {
        self.inner.read_word(address)
    }
    fn write_byte(&mut self, address: i32, value: i8) {
        self.inner.write_byte(address, value);
    }
    fn write_word(&mut self, address: i32, value: i32) {
        self.inner.write_word(address, value);
    }
    fn increment_interrupt_counters(&mut self) {}
}

#[test]
fn register_zero_stays_zero_after_writes_to_it() {
    let mut r3051 = R3051::new();
    r3051.general_registers[1] = 5;
    r3051.general_registers[2] = 7;
    // ADDU r0, r1, r2
    r3051.addu_instruction(0x0022_0021);
    assert_eq!(r3051.general_registers[0], 0);
    // LUI r0, 0x1234
    r3051.lui_instruction(0x3C00_1234);
    assert_eq!(r3051.general_registers[0], 0);
    // JALR r0, r1
    r3051.jalr_instruction(0x0020_0009);
    assert_eq!(r3051.general_registers[0], 0);
    // Through the decoder: ORI r0, r1, 0xFF
    let mut bus = SmallBus::new();
    r3051.execute_opcode(&mut bus, 0x3420_00FF, 0);
    assert_eq!(r3051.general_registers[0], 0);
}

#[test]
fn add_overflow_leaves_destination_unchanged() {
    let mut r3051 = R3051::new();
    r3051.general_registers[1] = 0x7FFF_FFFF;
    r3051.general_registers[2] = 1;
    r3051.general_registers[3] = 77;
    r3051.add_instruction(0x0022_1820);
    assert_eq!(r3051.general_registers[3], 77);
    assert_eq!(r3051.exception.exception_reason, MIPSExceptionReason::OVF);
    assert_eq!(r3051.exception.program_counter_origin, r3051.program_counter);
}

#[test]
fn add_of_four_and_five_is_nine() {
    let mut r3051 = R3051::new();
    r3051.general_registers[1] = 4;
    r3051.general_registers[2] = 5;
    r3051.add_instruction(0x0022_1820);
    assert_eq!(r3051.general_registers[3], 9);
    assert_eq!(r3051.exception.exception_reason, MIPSExceptionReason::NULL);
}

#[test]
fn sub_overflow_raises_ovf() {
    let mut r3051 = R3051::new();
    r3051.general_registers[1] = i32::MIN;
    r3051.general_registers[2] = 1;
    r3051.general_registers[3] = 5;
    // SUB r3, r1, r2
    r3051.sub_instruction(0x0022_1822);
    assert_eq!(r3051.general_registers[3], 5);
    assert_eq!(r3051.exception.exception_reason, MIPSExceptionReason::OVF);
}

#[test]
fn addiu_wraps_to_zero() {
    let mut r3051 = R3051::new();
    r3051.general_registers[1] = -1;
    r3051.addiu_instruction(0x2422_0001);
    assert_eq!(r3051.general_registers[2], 0);
    assert_eq!(r3051.exception.exception_reason, MIPSExceptionReason::NULL);
}

#[test]
fn cp0_read_masks_and_prid() {
    let mut cp0 = CP0::new();
    cp0.cp_registers[12] = -1;
    cp0.cp_registers[13] = -1;
    assert_eq!(cp0.read_reg(12), 0xF27F_FF3F_u32 as i32);
    assert_eq!(cp0.read_reg(13), 0xB000_FF7C_u32 as i32);
    cp0.write_reg(15, 0x1234, true);
    assert_eq!(cp0.read_reg(15), 2);
}

#[test]
fn virtual_to_physical_segments() {
    let cp0 = CP0::new();
    assert_eq!(cp0.virtual_to_physical(0x8000_0000_u32 as i32), 0);
    assert_eq!(cp0.virtual_to_physical(0x9FFF_FFFF_u32 as i32), 0x1FFF_FFFF);
    assert_eq!(cp0.virtual_to_physical(0xA000_0000_u32 as i32), 0);
    assert_eq!(cp0.virtual_to_physical(0xC000_0000_u32 as i32), 0xC000_0000_u32 as i32);
    assert_eq!(cp0.virtual_to_physical(0x1234), 0x1234);
}

#[test]
fn isolated_write_invalidates_only_its_line_then_one_refill() {
    let mut r3051 = R3051::new();
    for line in 0..256 {
        r3051.instruction_cache_valid[line] = true;
        r3051.instruction_cache_tag[line] = 0;
    }
    // Isolate the cache and write into the line of address 0x120.
    r3051.sccp.cp_registers[12] |= 0x0001_0000;
    r3051.write_instruction_cache_word(0x120, 0x1122_3344);
    assert!(!r3051.instruction_cache_valid[0x12]);
    assert!(r3051.instruction_cache_valid[0x11]);
    assert!(r3051.instruction_cache_valid[0x13]);
    assert_eq!(r3051.read_instruction_cache_word(0x120), 0x1122_3344);

    // Leave isolation: a fetch of that line misses and refills it once.
    r3051.sccp.cp_registers[12] &= !0x0001_0000;
    let mut bus = CountingBus { inner: SmallBus::new(), reads: std::cell::Cell::new(0) };
    bus.inner.ram[0x120] = 0x0A;
    bus.inner.ram[0x12F] = 0x0B;
    assert!(!r3051.check_for_instruction_cache_hit(0x120));
    let word = r3051.read_instruction_word(&mut bus, 0x120, 0x11C);
    assert_eq!(bus.reads.get(), 16);
    assert!(r3051.check_for_instruction_cache_hit(0x120));
    assert_eq!(word, 0x0A00_0000);
    assert_eq!(r3051.read_instruction_cache_byte(0x12F), 0x0B);
    // A second fetch hits and reads nothing from the bus.
    let again = r3051.read_instruction_word(&mut bus, 0x120, 0x11C);
    assert_eq!(again, 0x0A00_0000);
    assert_eq!(bus.reads.get(), 16);
}

#[test]
fn fetch_stalls_while_dma_holds_the_bus() {
    let mut r3051 = R3051::new();
    let mut bus = SmallBus::new();
    r3051.set_system_bus_holder(SystemBusHolder::DMA);
    assert_eq!(r3051.get_system_bus_holder(), SystemBusHolder::DMA);
    assert_eq!(r3051.read_instruction_word(&mut bus, 0x100, 0xFC), -1);
    assert_eq!(r3051.exception.exception_reason, MIPSExceptionReason::NULL);
}

#[test]
fn misaligned_fetch_raises_adel_and_is_taken() {
    let mut r3051 = R3051::new();
    let mut bus = SmallBus::new();
    assert_eq!(r3051.read_instruction_word(&mut bus, 0x102, 0xFE), -1);
    assert_eq!(r3051.exception.exception_reason, MIPSExceptionReason::NULL);
    assert_eq!(r3051.sccp.read_reg(8), 0x102);
    assert_eq!(r3051.sccp.read_reg(14), 0x102);
    assert_eq!((r3051.sccp.read_reg(13) >> 2) & 0x1F, 4);
}

#[test]
fn exception_round_trip_for_every_handled_kind() {
    let kinds = [
        MIPSExceptionReason::INT,
        MIPSExceptionReason::ADEL,
        MIPSExceptionReason::ADES,
        MIPSExceptionReason::IBE,
        MIPSExceptionReason::DBE,
        MIPSExceptionReason::SYS,
        MIPSExceptionReason::BP,
        MIPSExceptionReason::RI,
        MIPSExceptionReason::CPU,
        MIPSExceptionReason::OVF,
    ];
    for kind in kinds {
        for in_delay_slot in [false, true] {
            let mut r3051 = R3051::new();
            r3051.program_counter = 0x8000_1000_u32 as i32;
            r3051.prev_was_branch = in_delay_slot;
            r3051.exception.exception_reason = kind;
            r3051.exception.is_in_branch_delay_slot = in_delay_slot;
            r3051.exception.program_counter_origin =
                if in_delay_slot { 0x8000_0FFC_u32 as i32 } else { 0x8000_1000_u32 as i32 };
            assert!(r3051.handle_exception());
            assert_eq!(r3051.exception.exception_reason, MIPSExceptionReason::NULL);
            let expected_epc = if in_delay_slot { 0x8000_0FFC_u32 as i32 } else { 0x8000_1000_u32 as i32 };
            assert_eq!(r3051.sccp.read_reg(14), expected_epc);
            assert_eq!((r3051.sccp.read_reg(13) >> 2) & 0x1F, kind.code());
            assert_eq!(r3051.sccp.read_reg(13) < 0, in_delay_slot);
            assert_eq!(r3051.program_counter, 0x8000_0080_u32 as i32);
        }
    }
}

#[test]
fn break_then_exception_entry_sets_epc() {
    let mut r3051 = R3051::new();
    r3051.program_counter = 0x8000_0040_u32 as i32;
    r3051.prev_was_branch = true;
    r3051.break_instruction();
    assert!(r3051.handle_exception());
    assert_eq!(r3051.sccp.read_reg(14), 0x8000_003C_u32 as i32);
    assert_eq!(r3051.exception.exception_reason, MIPSExceptionReason::NULL);
    assert!(!r3051.handle_exception());
}

#[test]
fn exception_entry_pushes_mode_stack_and_rfe_pops_it() {
    let mut r3051 = R3051::new();
    r3051.sccp.write_reg(12, 0x0000_0003, true);
    r3051.syscall_instruction();
    r3051.handle_exception();
    assert_eq!(r3051.sccp.read_reg(12) & 0x3F, 0x0C);
    r3051.rfe_instruction();
    assert_eq!(r3051.sccp.read_reg(12) & 0x0F, 0x03);
}

#[test]
fn rfe_with_bits_five_to_two_set() {
    let mut cp0 = CP0::new();
    cp0.cp_registers[12] = 0x3C;
    cp0.rfe();
    assert_eq!(cp0.cp_registers[12] & 0x0F, 0x0F);
    assert_eq!(cp0.cp_registers[12] & 0x30, 0x30);
}

#[test]
fn bev_selects_the_rom_exception_vector() {
    let mut r3051 = R3051::new();
    r3051.sccp.write_reg(12, 0x0040_0000, true);
    r3051.exception.exception_reason = MIPSExceptionReason::SYS;
    r3051.handle_exception();
    assert_eq!(r3051.program_counter, 0xBFC0_0180_u32 as i32);
}

#[test]
fn reset_exception_resets_and_stays_pending() {
    let mut r3051 = R3051::new();
    r3051.program_counter = 0x1234;
    r3051.sccp.cp_registers[12] = 0x0040_0003;
    r3051.exception.exception_reason = MIPSExceptionReason::RESET;
    assert!(r3051.handle_exception());
    assert_eq!(r3051.program_counter, 0xBFC0_0000_u32 as i32);
    assert_eq!(r3051.sccp.cp_registers[12], 0);
    assert_eq!(r3051.sccp.cp_registers[1], 63 << 8);
}

#[test]
fn unknown_primary_opcode_raises_ri() {
    let mut r3051 = R3051::new();
    let mut bus = SmallBus::new();
    r3051.prev_was_branch = true;
    r3051.execute_opcode(&mut bus, 0x7C00_0000, 0x1234);
    assert_eq!(r3051.exception.exception_reason, MIPSExceptionReason::RI);
    assert_eq!(r3051.exception.program_counter_origin, 0x1234);
    assert!(r3051.exception.is_in_branch_delay_slot);
}

#[test]
fn unknown_special_function_raises_ri() {
    let mut r3051 = R3051::new();
    let mut bus = SmallBus::new();
    r3051.execute_opcode(&mut bus, 0x0000_0001, 0);
    assert_eq!(r3051.exception.exception_reason, MIPSExceptionReason::RI);
}

#[test]
fn co_processor_one_and_three_are_unusable() {
    for (instruction, number) in [(0x4400_0000_u32, 1), (0x4C00_0000_u32, 3), (0xC400_0000_u32, 1), (0xE400_0000_u32, 1), (0xCC00_0000_u32, 3)] {
        let mut r3051 = R3051::new();
        let mut bus = SmallBus::new();
        r3051.execute_opcode(&mut bus, instruction as i32, 0);
        assert_eq!(r3051.exception.exception_reason, MIPSExceptionReason::CPU);
        assert_eq!(r3051.exception.co_processor_num, number);
    }
}

#[test]
fn unusable_gte_raises_cpu_two() {
    let mut r3051 = R3051::new();
    let mut bus = SmallBus::new();
    // MFC2 r1, r15 while CP2 is not usable.
    r3051.execute_opcode(&mut bus, 0x4801_7800, 0);
    assert_eq!(r3051.exception.exception_reason, MIPSExceptionReason::CPU);
    assert_eq!(r3051.exception.co_processor_num, 2);
    // With CP2 usable the move goes through.
    let mut r3051 = R3051::new();
    r3051.sccp.cp_registers[12] |= 0x4000_0000;
    r3051.gte.data_registers[15] = 99;
    r3051.execute_opcode(&mut bus, 0x4801_7800, 0);
    assert_eq!(r3051.exception.exception_reason, MIPSExceptionReason::NULL);
    assert_eq!(r3051.general_registers[1], 99);
}

#[test]
fn gte_command_through_the_decoder_sets_cycles() {
    let mut r3051 = R3051::new();
    let mut bus = SmallBus::new();
    r3051.sccp.cp_registers[12] |= 0x4000_0000;
    // COP2 SQR.
    r3051.execute_opcode(&mut bus, 0x4A00_0028, 0);
    assert_eq!(r3051.gte_cycles, 5);
}

#[test]
fn unknown_gte_function_takes_no_cycles_and_changes_nothing() {
    let mut cp2 = CP2::new();
    cp2.data_registers[9] = 0x1234;
    cp2.control_registers[31] = 0x55;
    assert_eq!(cp2.gte_function(0x3C), 0);
    assert_eq!(cp2.data_registers[9], 0x1234);
    assert_eq!(cp2.control_registers[31], 0x55);
}

#[test]
fn sqr_saturates_ir3_and_flags_it() {
    let mut cp2 = CP2::new();
    cp2.write_data_reg(9, 0xB5, false);
    cp2.write_data_reg(10, 0xB5, false);
    cp2.write_data_reg(11, 0xFFF, false);
    assert_eq!(cp2.gte_function(0x28), 5);
    assert_eq!(cp2.read_data_reg(9), 0x7FF9);
    assert_eq!(cp2.read_data_reg(10), 0x7FF9);
    assert_eq!(cp2.read_data_reg(11), 0x7FFF);
    assert_eq!(cp2.read_control_reg(31), 0x0040_0000);
}

#[test]
fn avsz3_averages_the_depths() {
    let mut cp2 = CP2::new();
    cp2.control_registers[29] = 0x1000;
    cp2.data_registers[17] = 3;
    cp2.data_registers[18] = 4;
    cp2.data_registers[19] = 5;
    assert_eq!(cp2.gte_function(0x2D), 5);
    assert_eq!(cp2.data_registers[24], 12 * 0x1000);
    assert_eq!(cp2.data_registers[7], 12);
    assert_eq!(cp2.control_registers[31], 0);
}

#[test]
fn avsz4_with_negative_scale_clamps_to_zero() {
    let mut cp2 = CP2::new();
    cp2.control_registers[30] = 0xF000;
    cp2.data_registers[16] = 0x100;
    assert_eq!(cp2.gte_function(0x2E), 6);
    assert_eq!(cp2.data_registers[24], -0x1000 * 0x100);
    assert_eq!(cp2.data_registers[7], 0);
    assert_eq!(cp2.control_registers[31], 0x8004_0000_u32 as i32);
}

#[test]
fn lzcr_counts_leading_ones_and_zeroes() {
    let mut cp2 = CP2::new();
    cp2.write_data_reg(30, 0, false);
    assert_eq!(cp2.read_data_reg(31), 32);
    cp2.write_data_reg(30, -1, false);
    assert_eq!(cp2.read_data_reg(31), 32);
    cp2.write_data_reg(30, 0x0001_0000, false);
    assert_eq!(cp2.read_data_reg(31), 15);
}

#[test]
fn sxyp_write_shifts_the_screen_fifo() {
    let mut cp2 = CP2::new();
    cp2.write_data_reg(15, 1, false);
    cp2.write_data_reg(15, 2, false);
    cp2.write_data_reg(15, 3, false);
    assert_eq!(cp2.data_registers[12], 1);
    assert_eq!(cp2.data_registers[13], 2);
    assert_eq!(cp2.data_registers[14], 3);
    assert_eq!(cp2.read_data_reg(15), 3);
}

#[test]
fn interrupt_is_taken_when_enabled_and_unmasked() {
    let mut r3051 = R3051::new();
    let mut bus = SmallBus::new();
    // Interrupts enabled, hardware interrupt line 2 unmasked.
    r3051.sccp.write_reg(12, 0x0000_0401, true);
    // Interrupt line 2 pending and unmasked in the controller.
    bus.interrupt_status = 0x4;
    bus.interrupt_mask = 0x4;
    r3051.program_counter = 0x8000_0100_u32 as i32;
    assert!(r3051.handle_interrupts(&mut bus));
    assert_eq!(r3051.sccp.read_reg(14), 0x8000_0100_u32 as i32);
    assert_eq!(r3051.program_counter, 0x8000_0080_u32 as i32);
    assert_eq!((r3051.sccp.read_reg(13) >> 2) & 0x1F, 0);
    assert_eq!(r3051.sccp.read_reg(13) & 0x400, 0x400);
}

#[test]
fn interrupt_is_not_taken_while_disabled() {
    let mut r3051 = R3051::new();
    let mut bus = SmallBus::new();
    r3051.sccp.write_reg(12, 0x0000_0400, true);
    bus.interrupt_status = 0x4;
    bus.interrupt_mask = 0x4;
    assert!(!r3051.handle_interrupts(&mut bus));
    assert_eq!(r3051.sccp.read_reg(13) & 0x400, 0x400);
    bus.interrupt_mask = 0;
    assert!(!r3051.handle_interrupts(&mut bus));
    assert_eq!(r3051.sccp.read_reg(13) & 0x400, 0);
}

#[test]
fn a_block_ends_after_a_branch() {
    let mut r3051 = R3051::new();
    let mut bus = SmallBus::new();
    // ADDIU r1, r0, 5; BEQ r0, r0, +1; ADDIU r2, r0, 6.
    bus.put_instruction(0x0, 0x2401_0005);
    bus.put_instruction(0x4, 0x1000_0001);
    bus.put_instruction(0x8, 0x2402_0006);
    r3051.program_counter = 0x8000_0000_u32 as i32;
    let cycles = r3051.execute_instructions(&mut bus);
    assert_eq!(cycles, 2);
    assert_eq!(r3051.general_registers[1], 5);
    assert_eq!(r3051.general_registers[2], 0);
    assert!(r3051.prev_was_branch);
    assert!(r3051.jump_pending);
    assert_eq!(r3051.jump_address, 0x8000_000C_u32 as i32);
    assert_eq!(r3051.program_counter, 0x8000_0008_u32 as i32);
    assert_eq!(bus.cycles_seen, vec![1, 1]);
    // The next block runs the delay slot, then takes the jump.
    let mut r = r3051;
    r.general_registers[0] = 0;
    bus.put_instruction(0xC, 0x1000_FFFF);
    let more = r.execute_instructions(&mut bus);
    assert_eq!(r.general_registers[2], 6);
    assert!(more >= 1);
}

#[test]
fn loads_and_stores_go_through_the_bus() {
    let mut r3051 = R3051::new();
    let mut bus = SmallBus::new();
    r3051.general_registers[1] = 0x100;
    r3051.general_registers[2] = 0x1234_5678;
    // SW r2, 0(r1) then LW r3, 0(r1).
    r3051.sw_instruction(&mut bus, 0xAC22_0000_u32 as i32);
    r3051.lw_instruction(&mut bus, 0x8C23_0000_u32 as i32);
    assert_eq!(r3051.general_registers[3], 0x1234_5678);
    assert_eq!(bus.ram[0x100], 0x78);
    // SH r2, 6(r1) then LHU r4, 6(r1).
    r3051.sh_instruction(&mut bus, 0xA422_0006_u32 as i32);
    r3051.lhu_instruction(&mut bus, 0x9424_0006_u32 as i32);
    assert_eq!(r3051.general_registers[4], 0x5678);
    // SB r2, 9(r1) then LB r5, 9(r1).
    r3051.sb_instruction(&mut bus, 0xA022_0009_u32 as i32);
    r3051.lb_instruction(&mut bus, 0x8025_0009_u32 as i32);
    assert_eq!(r3051.general_registers[5], 0x78);
}

#[test]
fn misaligned_store_raises_ades() {
    let mut r3051 = R3051::new();
    let mut bus = SmallBus::new();
    r3051.general_registers[1] = 0x101;
    r3051.sw_instruction(&mut bus, 0xAC22_0000_u32 as i32);
    assert_eq!(r3051.exception.exception_reason, MIPSExceptionReason::ADES);
    assert_eq!(r3051.exception.bad_address, 0x101);
}

#[test]
fn isolated_cache_takes_data_accesses() {
    let mut r3051 = R3051::new();
    let mut bus = SmallBus::new();
    r3051.sccp.cp_registers[12] |= 0x0001_0000;
    r3051.general_registers[1] = 0x40;
    r3051.general_registers[2] = 0x0A0B_0C0D;
    r3051.sw_instruction(&mut bus, 0xAC22_0000_u32 as i32);
    assert_eq!(bus.ram[0x40], 0);
    assert_eq!(r3051.instruction_cache_data[0x40], 0x0D);
    r3051.lw_instruction(&mut bus, 0x8C23_0000_u32 as i32);
    assert_eq!(r3051.general_registers[3], 0x0A0B_0C0D);
}

#[test]
fn divide_and_multiply_edge_cases() {
    let mut r3051 = R3051::new();
    r3051.general_registers[1] = -7;
    r3051.general_registers[2] = 2;
    // DIV r1, r2
    r3051.div_instruction(0x0022_001A);
    assert_eq!(r3051.lo_reg, -3);
    assert_eq!(r3051.hi_reg, -1);
    // MULTU of two large values.
    r3051.general_registers[1] = -1;
    r3051.general_registers[2] = -1;
    r3051.multu_instruction(0x0022_0019);
    assert_eq!(r3051.hi_reg, -2);
    assert_eq!(r3051.lo_reg, 1);
    // MULT of the same values as signed.
    r3051.mult_instruction(0x0022_0018);
    assert_eq!(r3051.hi_reg, 0);
    assert_eq!(r3051.lo_reg, 1);
}

#[test]
fn exception_latch_starts_and_resets_empty() {
    let mut e = MIPSException::new();
    assert_eq!(e.exception_reason, MIPSExceptionReason::NULL);
    e.exception_reason = MIPSExceptionReason::OVF;
    e.bad_address = 5;
    e.reset();
    assert_eq!(e.exception_reason, MIPSExceptionReason::NULL);
    assert_eq!(e.bad_address, 0);
    assert_eq!(MIPSExceptionReason::CPU.code(), 11);
    assert_eq!(MIPSExceptionReason::NULL.code(), 14);
}

#[test]
fn controller_baud_timer_counts_down_and_reloads() {
    let mut c = PsxControllers::new();
    c.write_byte(0x48, 0x02);
    c.write_byte(0x4E, 0x10);
    // Reload value 0x10 * 2 / 2 = 0x10.
    assert_eq!(c.joy_stat >> 11, 0x10);
    c.append_sync_cycles(6);
    assert_eq!(c.read_byte(0x45) as u8, ((0x0A << 11) >> 8) as u8);
    c.append_sync_cycles(100);
    c.read_byte(0x47);
    assert_eq!(c.joy_stat >> 11, 0x10);
    assert_eq!(c.read_byte(0x44) & 0x7, 0x7);
    assert_eq!(c.read_byte(0x4E), 0x10);
    assert_eq!(c.read_byte(0x48), 0x02);
    assert_eq!(c.read_byte(0x40), 0);
    assert_eq!(c.read_byte(0x41), 0);
}

#[test]
fn controller_mode_and_control_bytes() {
    let mut c = PsxControllers::new();
    c.write_byte(0x49, 0x12);
    c.write_byte(0x48, 0x34);
    c.write_byte(0x4B, 0x56);
    c.write_byte(0x4A, 0x78);
    c.write_byte(0x40, -1);
    assert_eq!(c.joy_mode, 0x1234);
    assert_eq!(c.joy_ctrl, 0x5678);
    assert_eq!(c.joy_tx_data, 0xFF);
    assert_eq!(c.read_byte(0x49), 0x12);
    assert_eq!(c.read_byte(0x4B), 0x56);
}

#[test]
fn spu_stores_and_reads_back() {
    let mut spu = PsxSpu::new();
    assert_eq!(spu.read_byte(1023), 0);
    spu.write_byte(1023, -5);
    spu.write_byte(0, 9);
    assert_eq!(spu.read_byte(1023), -5);
    assert_eq!(spu.read_byte(0), 9);
}

#[test]
fn motherboard_loads_the_bios_image() {
    let mut bios = vec![0_i8; BIOS_SIZE];
    bios[0] = 0x13;
    bios[BIOS_SIZE - 1] = -1;
    let board = PsxMotherboard::new(&bios);
    assert_eq!(board.bios[0], 0x13);
    assert_eq!(board.bios[BIOS_SIZE - 1], -1);
    assert_eq!(board.ram.len(), 2097152);
    assert_eq!(board.gpu_interrupt_delay, -1);
    assert_eq!(board.timers_interrupt_delay, [-1; 3]);
}

#[test]
fn motherboard_components_lend_the_cpu() {
    let mut cpu = R3051::new();
    {
        let parts = MotherboardComponents { cpu: &mut cpu };
        parts.cpu.set_system_bus_holder(SystemBusHolder::DMA);
    }
    assert_eq!(cpu.system_bus_holder, SystemBusHolder::DMA);
}
