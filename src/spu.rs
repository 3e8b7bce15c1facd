//! The sound chip's register window: a plain byte store for now.

use vstd::prelude::*;

verus! {

/// Bytes in the sound chip's register window.
pub const FAKE_REGISTER_SPACE_BYTES: usize = 1024;

/// What the rest of the console calls on a sound chip implementation.
pub trait Spu {
    /// Reads the byte at `address` of the register window.
    fn read_byte(&self, address: usize) -> i8
        requires
            address < FAKE_REGISTER_SPACE_BYTES,
    ;

    /// Writes the byte at `address` of the register window.
    fn write_byte(&mut self, address: usize, value: i8)
        requires
            address < FAKE_REGISTER_SPACE_BYTES,
    ;
}

/// A sound chip that stores what is written to it and reads it back.
pub struct PsxSpu {
    pub fake_register_space: [i8; 1024],
}

impl PsxSpu {
    /// A register window of zeros.
    pub fn new() -> (r: Self)
        ensures
            forall|i: int| 0 <= i < 1024 ==> #[trigger] r.fake_register_space@[i] == 0,
    {
        PsxSpu { fake_register_space: [0i8; 1024] }
    }

    /// The byte at `address`.
    pub fn register(&self, address: usize) -> (r: i8)
        requires
            address < FAKE_REGISTER_SPACE_BYTES,
        ensures
            r == self.fake_register_space@[address as int],
    {
        self.fake_register_space[address]
    }

    /// Stores `value` at `address`.
    pub fn set_register(&mut self, address: usize, value: i8)
        requires
            address < FAKE_REGISTER_SPACE_BYTES,
        ensures
            final(self).fake_register_space@ == old(self).fake_register_space@.update(
                address as int,
                value,
            ),
    {
        self.fake_register_space[address] = value;
    }
}

impl Spu for PsxSpu {
    fn read_byte(&self, address: usize) -> i8 {
        self.register(address)
    }

    fn write_byte(&mut self, address: usize, value: i8) {
        self.set_register(address, value);
    }
}

} // verus!
