//! The console's main board: memories, delay and interrupt registers, timers.

use vstd::prelude::*;
use crate::cpu::Cpu;

verus! {

/// What the rest of the console sees of a main board.
pub trait Motherboard {}

/// The components that the main board drives, borrowed for one step.
pub struct MotherboardComponents<'a, C: Cpu> {
    pub cpu: &'a mut C,
}

/// Bytes of main RAM.
pub const RAM_SIZE: usize = 2097152;

/// Bytes of scratchpad.
pub const SCRATCHPAD_SIZE: usize = 1024;

/// Bytes of BIOS ROM.
pub const BIOS_SIZE: usize = 524288;

/// The state of the main board.
pub struct PsxMotherboard {
    pub ram: Vec<i8>,
    pub scratchpad: Vec<i8>,
    pub bios: Vec<i8>,
    pub cache_control_reg: i32,
    pub interrupt_status_reg: i32,
    pub interrupt_mask_reg: i32,
    pub expansion1_base_address: i32,
    pub expansion2_base_address: i32,
    pub expansion1_delay_size: i32,
    pub expansion2_delay_size: i32,
    pub expansion3_delay_size: i32,
    pub bios_rom_delay_size: i32,
    pub spu_delay_size: i32,
    pub cdrom_delay_size: i32,
    pub common_delay: i32,
    pub ram_size: i32,
    pub bios_post: i8,
    pub gpu_interrupt_delay: i64,
    pub dma_interrupt_delay: i64,
    pub cdrom_interrupt_delay: i64,
    pub gpu_interrupt_counter: i64,
    pub dma_interrupt_counter: i64,
    pub cdrom_interrupt_counter: i64,
    pub timers_interrupt_delay: [i64; 3],
    pub timers_interrupt_counter: [i64; 3],
    pub cdrom_interrupt_number: i32,
    pub cdrom_interrupt_enabled: bool,
    pub interrupt_cycles: i32,
    pub timer_mode: [i32; 3],
    pub timer_counter_value: [i32; 3],
    pub timer_target_value: [i32; 3],
    pub clock_source: [i32; 3],
    pub increment_by: [i32; 3],
    pub new_value: [i32; 3],
    pub interrupt_happened_once_or_more: [bool; 3],
    pub cpu_cycles_to_sync: [i32; 3],
    pub gpu_cycles_to_sync: [i32; 3],
    pub cpu_topup: [i32; 3],
    pub gpu_topup: [i32; 3],
    pub hblank_happened: [bool; 3],
    pub vblank_happened: [bool; 3],
}

impl PsxMotherboard {
    /// The memories have their sizes.
    pub open spec fn well_formed(&self) -> bool {
        &&& self.ram@.len() == RAM_SIZE
        &&& self.scratchpad@.len() == SCRATCHPAD_SIZE
        &&& self.bios@.len() == BIOS_SIZE
    }

    /// A board with cleared RAM and scratchpad, the BIOS image `bios_data`
    /// in ROM, and no interrupt scheduled.
    pub fn new(bios_data: &[i8]) -> (r: Self)
        requires
            bios_data@.len() == BIOS_SIZE,
        ensures
            r.well_formed(),
            r.bios@ == bios_data@,
            forall|i: int| 0 <= i < RAM_SIZE ==> #[trigger] r.ram@[i] == 0,
            r.gpu_interrupt_delay == -1 && r.dma_interrupt_delay == -1 && r.cdrom_interrupt_delay
                == -1,
    {
        let mut motherboard = PsxMotherboard {
            ram: vec![0i8; RAM_SIZE],
            scratchpad: vec![0i8; SCRATCHPAD_SIZE],
            bios: vec![0i8; BIOS_SIZE],
            cache_control_reg: 0,
            interrupt_status_reg: 0,
            interrupt_mask_reg: 0,
            expansion1_base_address: 0,
            expansion2_base_address: 0,
            expansion1_delay_size: 0,
            expansion2_delay_size: 0,
            expansion3_delay_size: 0,
            bios_rom_delay_size: 0,
            spu_delay_size: 0,
            cdrom_delay_size: 0,
            common_delay: 0,
            ram_size: 0,
            bios_post: 0,
            gpu_interrupt_delay: -1,
            dma_interrupt_delay: -1,
            cdrom_interrupt_delay: -1,
            gpu_interrupt_counter: 0,
            dma_interrupt_counter: 0,
            cdrom_interrupt_counter: 0,
            timers_interrupt_delay: [-1i64; 3],
            timers_interrupt_counter: [0i64; 3],
            cdrom_interrupt_number: 0,
            cdrom_interrupt_enabled: false,
            interrupt_cycles: 0,
            timer_mode: [0i32; 3],
            timer_counter_value: [0i32; 3],
            timer_target_value: [0i32; 3],
            clock_source: [0i32; 3],
            increment_by: [0i32; 3],
            new_value: [0i32; 3],
            interrupt_happened_once_or_more: [false; 3],
            cpu_cycles_to_sync: [0i32; 3],
            gpu_cycles_to_sync: [0i32; 3],
            cpu_topup: [0i32; 3],
            gpu_topup: [0i32; 3],
            hblank_happened: [false; 3],
            vblank_happened: [false; 3],
        };
        motherboard.load_bios_data_to_memory(bios_data);
        motherboard
    }

    /// Copies the BIOS image into ROM.
    pub fn load_bios_data_to_memory(&mut self, bios_data: &[i8])
        requires
            old(self).well_formed(),
            bios_data@.len() == BIOS_SIZE,
        ensures
            final(self).well_formed(),
            final(self).bios@ == bios_data@,
            final(self).ram == old(self).ram,
            final(self).scratchpad == old(self).scratchpad,
            final(self).gpu_interrupt_delay == old(self).gpu_interrupt_delay,
            final(self).dma_interrupt_delay == old(self).dma_interrupt_delay,
            final(self).cdrom_interrupt_delay == old(self).cdrom_interrupt_delay,
    {
        let mut i: usize = 0;
        while i < bios_data.len()
            invariant
                self.well_formed(),
                bios_data@.len() == BIOS_SIZE,
                0 <= i <= BIOS_SIZE,
                forall|j: int| 0 <= j < i ==> #[trigger] self.bios@[j] == bios_data@[j],
                self.ram == old(self).ram,
                self.scratchpad == old(self).scratchpad,
                self.gpu_interrupt_delay == old(self).gpu_interrupt_delay,
                self.dma_interrupt_delay == old(self).dma_interrupt_delay,
                self.cdrom_interrupt_delay == old(self).cdrom_interrupt_delay,
            decreases BIOS_SIZE - i,
        {
            self.bios.set(i, bios_data[i]);
            i = i + 1;
        }
        assert(self.bios@ =~= bios_data@);
    }
}

impl Motherboard for PsxMotherboard {}

} // verus!
