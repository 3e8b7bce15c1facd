//! The interfaces between the processor and the rest of the console.

use vstd::prelude::*;
use crate::utility::SystemBusHolder;

verus! {

/// What the processor offers the rest of the console.
pub trait Cpu {
    /// Which agent holds the system bus.
    spec fn bus_holder(&self) -> SystemBusHolder;

    /// Hands the system bus to `holder`.
    fn set_system_bus_holder(&mut self, holder: SystemBusHolder)
        ensures
            final(self).bus_holder() == holder,
    ;

    /// Which agent holds the system bus.
    fn get_system_bus_holder(&self) -> (r: SystemBusHolder)
        ensures
            r == self.bus_holder(),
    ;
}

/// What the processor needs from the rest of the console: bus transactions,
/// timing and configuration. The console aggregate implements it. The spec
/// functions name what the queries answer in the bridge's current state, so
/// that the processor's contracts can say what it does with each answer.
pub trait CpuBridge {
    /// The stall cycles that a transaction at `address` takes now.
    spec fn stall_of(&self, address: i32) -> i32;

    /// Whether `address` advances during a multi-byte transaction now.
    spec fn increments(&self, address: i64) -> bool;

    /// Whether the scratchpad is enabled now.
    spec fn scratchpad_on(&self) -> bool;

    /// Whether the instruction cache is enabled now.
    spec fn icache_on(&self) -> bool;

    /// The byte that the bus holds at `address` now.
    spec fn byte_at(&self, address: i32) -> i8;

    /// The word that the bus holds at `address` now.
    spec fn word_at(&self, address: i32) -> i32;

    /// How many instruction steps the processor has reported so far,
    /// saturating at `u64::MAX`.
    spec fn sync_count(&self) -> u64;

    /// The sum of the cycles that the processor has reported so far,
    /// wrapping at 64 bits.
    spec fn synced_cycles(&self) -> i64;

    /// Reports how many cycles the instruction just finished took.
    fn append_sync_cycles(&mut self, cycles: i32)
        ensures
            final(self).sync_count() == (if old(self).sync_count() < u64::MAX {
                (old(self).sync_count() + 1) as u64
            } else {
                u64::MAX
            }),
            final(self).synced_cycles() == (old(self).synced_cycles() + cycles) as i64,
    ;

    /// How many cycles a bus transaction at `address` stalls for.
    fn how_many_stall_cycles(&self, address: i32) -> (r: i32)
        ensures
            r == self.stall_of(address),
    ;

    /// Whether `address` should advance during a multi-byte transaction.
    fn ok_to_increment(&self, address: i64) -> (r: bool)
        ensures
            r == self.increments(address),
    ;

    /// Whether the scratchpad is enabled.
    fn scratchpad_enabled(&self) -> (r: bool)
        ensures
            r == self.scratchpad_on(),
    ;

    /// Whether the instruction cache is enabled.
    fn instruction_cache_enabled(&self) -> (r: bool)
        ensures
            r == self.icache_on(),
    ;

    /// Reads a byte from the bus.
    fn read_byte(&self, address: i32) -> (r: i8)
        ensures
            r == self.byte_at(address),
    ;

    /// Reads a word from the bus.
    fn read_word(&self, address: i32) -> (r: i32)
        ensures
            r == self.word_at(address),
    ;

    /// Writes a byte to the bus.
    fn write_byte(&mut self, address: i32, value: i8)
        ensures
            final(self).sync_count() == old(self).sync_count(),
            final(self).synced_cycles() == old(self).synced_cycles(),
    ;

    /// Writes a word to the bus.
    fn write_word(&mut self, address: i32, value: i32)
        ensures
            final(self).sync_count() == old(self).sync_count(),
            final(self).synced_cycles() == old(self).synced_cycles(),
    ;

    /// Advances every interrupt-related counter of the console.
    fn increment_interrupt_counters(&mut self)
        ensures
            final(self).sync_count() == old(self).sync_count(),
            final(self).synced_cycles() == old(self).synced_cycles(),
    ;
}

} // verus!
