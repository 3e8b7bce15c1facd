//! Emulation of the PlayStation's central processor complex: the R3051 core,
//! its system control co-processor (CP0), the Geometry Transformation Engine
//! (CP2), the exception latch and the instruction cache; with the controller
//! port, the sound chip's register window and the main board's state that
//! the core runs beside.
//!
//! - `utility`: bit helpers on machine words.
//! - `mips_exception`: the pending-exception latch.
//! - `cp0`, `cp2`, `math`: the two co-processors and the GTE's vectors.
//! - `cpu`: the interfaces between the core and the rest of the console.
//! - `r3051`: the core's state, instruction cache, bus transactions and
//!   exception entry; `instructions`: one handler per instruction;
//!   `pipeline`: decoding, fetch, interrupt polling and the block loop.
//! - `controllers`, `spu`, `motherboard`: the neighbouring components.

pub mod utility;
pub mod mips_exception;
pub mod cp0;
pub mod math;
pub mod cp2;
pub mod cpu;
pub mod r3051;
pub mod instructions;
pub mod pipeline;
pub mod controllers;
pub mod spu;
pub mod motherboard;

