//! The controller port: the JOY_* registers and their baud rate timer.

use vstd::prelude::*;
use crate::utility::{CustomInteger, logical_rshift_32};

verus! {

/// What the rest of the console calls on a controller port implementation.
pub trait Controllers {
    /// Reads the byte of register `address` (0x40 to 0x4F).
    fn read_byte(&mut self, address: i8) -> i8;

    /// Writes `value` to the byte of register `address` (0x40 to 0x4F).
    fn write_byte(&mut self, address: i8, value: i8);

    /// Adds `cycles` to the time that the baud rate timer has yet to count.
    fn append_sync_cycles(&mut self, cycles: i32);
}

/// Bytes in the receive FIFO.
pub const RX_FIFO_BYTES: usize = 4;

/// The baud rate timer's reload value: JOY_BAUD times the mode's baud
/// factor, halved.
pub open spec fn baud_reload(joy_baud: i32, joy_mode: i32) -> i32 {
    let product = joy_baud * (joy_mode & 0x3);
    (if product < 0 {
        -((-product) / 2)
    } else {
        product / 2
    }) as i32
}

/// JOY_STAT with its timer field (bits 11 and up) replaced by `timer`.
pub open spec fn with_timer(joy_stat: i32, timer: i32) -> i32 {
    (timer << 11) | (joy_stat & 0x7FF)
}

/// JOY_STAT after the timer has counted `cycles` down, reloading when it
/// runs out.
pub open spec fn counted_down(joy_stat: i32, cycles: i32, joy_baud: i32, joy_mode: i32) -> i32 {
    let left = (logical_rshift_32(joy_stat, 11) & 0x1F_FFFF) - cycles;
    if left < 0 {
        with_timer(joy_stat, baud_reload(joy_baud, joy_mode))
    } else {
        with_timer(joy_stat, left as i32)
    }
}

/// Byte `n` (0 for the lowest) of `x`.
pub open spec fn byte_at(x: i32, n: i32) -> i8 {
    if n == 0 {
        (x & 0xFF) as i8
    } else {
        (logical_rshift_32(x, (n * 8) as i32) & 0xFF) as i8
    }
}

/// The state of the controller port.
pub struct PsxControllers {
    pub rx_fifo: [i8; 4],
    pub rx_count: i32,
    pub joy_baud: i32,
    pub joy_tx_data: i32,
    pub joy_stat: i32,
    pub joy_mode: i32,
    pub joy_ctrl: i32,
    /// Cycles that the baud rate timer has yet to count.
    pub cycles: i32,
}

impl PsxControllers {
    /// A port with every register clear.
    pub fn new() -> (r: Self)
        ensures
            r.rx_count == 0 && r.joy_baud == 0 && r.joy_tx_data == 0 && r.joy_stat == 0,
            r.joy_mode == 0 && r.joy_ctrl == 0 && r.cycles == 0,
    {
        PsxControllers {
            rx_fifo: [0i8; 4],
            rx_count: 0,
            joy_baud: 0,
            joy_tx_data: 0,
            joy_stat: 0,
            joy_mode: 0,
            joy_ctrl: 0,
            cycles: 0,
        }
    }

    /// The baud rate timer's reload value.
    fn reload_value(&self) -> (r: i32)
        ensures
            r == baud_reload(self.joy_baud, self.joy_mode),
    {
        let mode = self.joy_mode;
        let mode_factor = mode & 0x3;
        assert(0 <= mode & 0x3 <= 3) by (bit_vector);
        let baud = self.joy_baud as i64;
        assert(-0x4_0000_0000 <= baud * mode_factor <= 0x4_0000_0000) by (nonlinear_arith)
            requires
                -0x8000_0000 <= baud <= 0x8000_0000,
                0 <= mode_factor <= 3,
        ;
        let product = baud * mode_factor as i64;
        let half = if product < 0 {
            -((-product) / 2)
        } else {
            product / 2
        };
        half as i32
    }

    /// Counts the pending cycles off the baud rate timer in JOY_STAT.
    pub fn update_baudrate_timer(&mut self)
        ensures
            final(self).joy_stat == counted_down(
                old(self).joy_stat,
                old(self).cycles,
                old(self).joy_baud,
                old(self).joy_mode,
            ),
            final(self).cycles == 0,
            final(self).joy_baud == old(self).joy_baud && final(self).joy_mode == old(self).joy_mode,
            final(self).joy_ctrl == old(self).joy_ctrl && final(self).joy_tx_data == old(
                self).joy_tx_data,
            final(self).rx_count == old(self).rx_count && final(self).rx_fifo == old(self).rx_fifo,
    {
        let timer = self.joy_stat.logical_rshift(11) & 0x1F_FFFF;
        let left = timer as i64 - self.cycles as i64;
        self.cycles = 0;
        let new_timer = if left < 0 {
            self.reload_value()
        } else {
            left as i32
        };
        self.joy_stat = (new_timer << 11) | (self.joy_stat & 0x7FF);
    }

    /// Sets the TX ready and RX flags of JOY_STAT.
    pub fn update_joy_stat(&mut self)
        ensures
            final(self).joy_stat == old(self).joy_stat | 0x7,
            final(self).cycles == old(self).cycles,
    {
        self.joy_stat = self.joy_stat | 0x7;
    }

    /// Runs the timer, then reads the byte of register `address`; JOY_STAT's
    /// lowest byte reads with its ready flags set, and unknown registers read 0.
    pub fn read_register(&mut self, address: i8) -> (r: i8)
        ensures
            final(self).cycles == 0,
            ({
                let stat = counted_down(old(self).joy_stat, old(self).cycles, old(self).joy_baud, old(self).joy_mode);
                &&& final(self).joy_stat == (if address == 0x44 { stat | 0x7 } else { stat })
                &&& address == 0x44 ==> r == byte_at(stat | 0x7, 0)
                &&& address == 0x45 ==> r == byte_at(stat, 1)
                &&& address == 0x46 ==> r == byte_at(stat, 2)
                &&& address == 0x47 ==> r == byte_at(stat, 3)
                &&& address == 0x48 ==> r == byte_at(old(self).joy_mode, 0)
                &&& address == 0x49 ==> r == byte_at(old(self).joy_mode, 1)
                &&& address == 0x4A ==> r == byte_at(old(self).joy_ctrl, 0)
                &&& address == 0x4B ==> r == byte_at(old(self).joy_ctrl, 1)
                &&& address == 0x4E ==> r == byte_at(old(self).joy_baud, 0)
                &&& address == 0x4F ==> r == byte_at(old(self).joy_baud, 1)
                &&& address == 0x40 && old(self).rx_count > 0 ==> r == old(self).rx_fifo@[0]
                    && final(self).rx_count == old(self).rx_count - 1
                &&& address == 0x40 && old(self).rx_count <= 0 ==> r == 0
                &&& !(address == 0x40 || (0x44 <= address <= 0x4B) || address == 0x4E || address
                    == 0x4F) ==> r == 0
            }),
    {
        self.update_baudrate_timer();
        if address == 0x40 {
            if self.rx_count > 0 {
                let fifo_value = self.rx_fifo[0];
                self.rx_count = self.rx_count - 1;
                fifo_value
            } else {
                0
            }
        } else if address == 0x44 {
            self.update_joy_stat();
            (self.joy_stat & 0xFF) as i8
        } else if address == 0x45 {
            (self.joy_stat.logical_rshift(8) & 0xFF) as i8
        } else if address == 0x46 {
            (self.joy_stat.logical_rshift(16) & 0xFF) as i8
        } else if address == 0x47 {
            (self.joy_stat.logical_rshift(24) & 0xFF) as i8
        } else if address == 0x48 {
            (self.joy_mode & 0xFF) as i8
        } else if address == 0x49 {
            (self.joy_mode.logical_rshift(8) & 0xFF) as i8
        } else if address == 0x4A {
            (self.joy_ctrl & 0xFF) as i8
        } else if address == 0x4B {
            (self.joy_ctrl.logical_rshift(8) & 0xFF) as i8
        } else if address == 0x4E {
            (self.joy_baud & 0xFF) as i8
        } else if address == 0x4F {
            (self.joy_baud.logical_rshift(8) & 0xFF) as i8
        } else {
            0
        }
    }

    /// Runs the timer, then writes `value` to the byte of register
    /// `address`; a write to JOY_BAUD reloads the timer.
    pub fn write_register(&mut self, address: i8, value: i8)
        ensures
            final(self).cycles == 0,
            ({
                let v = (value as i32) & 0xFF;
                let stat = counted_down(old(self).joy_stat, old(self).cycles, old(self).joy_baud, old(self).joy_mode);
                &&& address == 0x40 ==> final(self).joy_tx_data == v
                &&& address == 0x48 ==> final(self).joy_mode == (old(self).joy_mode & 0xFF00) | v
                &&& address == 0x49 ==> final(self).joy_mode == (v << 8) | (old(self).joy_mode & 0xFF)
                &&& address == 0x4A ==> final(self).joy_ctrl == (old(self).joy_ctrl & 0xFF00) | v
                &&& address == 0x4B ==> final(self).joy_ctrl == (v << 8) | (old(self).joy_ctrl & 0xFF)
                &&& address == 0x4E ==> final(self).joy_baud == (old(self).joy_baud & 0xFF00) | v
                &&& address == 0x4F ==> final(self).joy_baud == (v << 8) | (old(self).joy_baud & 0xFF)
                &&& (address == 0x4E || address == 0x4F) ==> final(self).joy_stat == with_timer(
                    stat,
                    baud_reload(final(self).joy_baud, old(self).joy_mode),
                )
                &&& !(address == 0x4E || address == 0x4F) ==> final(self).joy_stat == stat
            }),
    {
        self.update_baudrate_timer();
        let v = (value as i32) & 0xFF;
        if address == 0x40 {
            self.joy_tx_data = v;
        } else if address == 0x48 {
            self.joy_mode = (self.joy_mode & 0xFF00) | v;
        } else if address == 0x49 {
            self.joy_mode = (v << 8) | (self.joy_mode & 0xFF);
        } else if address == 0x4A {
            self.joy_ctrl = (self.joy_ctrl & 0xFF00) | v;
        } else if address == 0x4B {
            self.joy_ctrl = (v << 8) | (self.joy_ctrl & 0xFF);
        } else if address == 0x4E || address == 0x4F {
            if address == 0x4E {
                self.joy_baud = (self.joy_baud & 0xFF00) | v;
            } else {
                self.joy_baud = (v << 8) | (self.joy_baud & 0xFF);
            }
            let baudrate = self.reload_value();
            self.joy_stat = (baudrate << 11) | (self.joy_stat & 0x7FF);
        }
    }

    /// Adds `cycles` to the cycles pending for the timer, wrapping at 32 bits.
    pub fn add_sync_cycles(&mut self, cycles: i32)
        ensures
            final(self).cycles == (old(self).cycles + cycles) as i32,
            final(self).joy_stat == old(self).joy_stat,
    {
        self.cycles = (self.cycles as i64 + cycles as i64) as i32;
    }
}

impl Controllers for PsxControllers {
    fn read_byte(&mut self, address: i8) -> i8 {
        self.read_register(address)
    }

    fn write_byte(&mut self, address: i8, value: i8) {
        self.write_register(address, value);
    }

    fn append_sync_cycles(&mut self, cycles: i32) {
        self.add_sync_cycles(cycles);
    }
}

} // verus!
