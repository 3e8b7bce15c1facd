//! The single pending-exception latch of the R3051.

use vstd::prelude::*;

verus! {

/// Why an exception was raised; `NULL` means that none is pending.
#[derive(Copy, Clone, PartialEq, Eq, Debug, Structural)]
pub enum MIPSExceptionReason {
    INT,
    ADEL,
    ADES,
    IBE,
    DBE,
    SYS,
    BP,
    RI,
    CPU,
    OVF,
    RESET,
    NULL,
}

impl MIPSExceptionReason {
    /// The ExcCode field value that the Cause register holds for this reason.
    pub open spec fn code_spec(self) -> i32 {
        match self {
            MIPSExceptionReason::INT => 0,
            MIPSExceptionReason::ADEL => 4,
            MIPSExceptionReason::ADES => 5,
            MIPSExceptionReason::IBE => 6,
            MIPSExceptionReason::DBE => 7,
            MIPSExceptionReason::SYS => 8,
            MIPSExceptionReason::BP => 9,
            MIPSExceptionReason::RI => 10,
            MIPSExceptionReason::CPU => 11,
            MIPSExceptionReason::OVF => 12,
            MIPSExceptionReason::RESET => 13,
            MIPSExceptionReason::NULL => 14,
        }
    }

    /// The hardware ExcCode of this reason.
    pub fn code(self) -> (r: i32)
        ensures
            r == self.code_spec(),
    {
        match self {
            MIPSExceptionReason::INT => 0,
            MIPSExceptionReason::ADEL => 4,
            MIPSExceptionReason::ADES => 5,
            MIPSExceptionReason::IBE => 6,
            MIPSExceptionReason::DBE => 7,
            MIPSExceptionReason::SYS => 8,
            MIPSExceptionReason::BP => 9,
            MIPSExceptionReason::RI => 10,
            MIPSExceptionReason::CPU => 11,
            MIPSExceptionReason::OVF => 12,
            MIPSExceptionReason::RESET => 13,
            MIPSExceptionReason::NULL => 14,
        }
    }
}

/// The pending exception: its reason, where it came from and what caused it.
pub struct MIPSException {
    pub exception_reason: MIPSExceptionReason,
    pub program_counter_origin: i32,
    pub bad_address: i32,
    pub co_processor_num: i32,
    pub is_in_branch_delay_slot: bool,
}

impl MIPSException {
    /// The latch with nothing pending.
    pub open spec fn is_empty(&self) -> bool {
        &&& self.exception_reason == MIPSExceptionReason::NULL
        &&& self.program_counter_origin == 0
        &&& self.bad_address == 0
        &&& self.co_processor_num == 0
        &&& !self.is_in_branch_delay_slot
    }

    /// An empty latch.
    pub fn new() -> (r: Self)
        ensures
            r.is_empty(),
    {
        MIPSException {
            exception_reason: MIPSExceptionReason::NULL,
            program_counter_origin: 0,
            bad_address: 0,
            co_processor_num: 0,
            is_in_branch_delay_slot: false,
        }
    }

    /// Empties the latch.
    pub fn reset(&mut self)
        ensures
            final(self).is_empty(),
    {
        self.exception_reason = MIPSExceptionReason::NULL;
        self.program_counter_origin = 0;
        self.bad_address = 0;
        self.co_processor_num = 0;
        self.is_in_branch_delay_slot = false;
    }
}

} // verus!
