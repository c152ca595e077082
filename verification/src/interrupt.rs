//! Asynchronous interrupt causes.

use vstd::prelude::*;

use crate::csr::{MASK_MEIP, MASK_MSIP, MASK_MTIP, MASK_SEIP, MASK_SSIP, MASK_STIP};

verus! {

/// Set in a cause value to mark it as an interrupt rather than an
/// exception.
pub const MASK_INTERRUPT_BIT: u32 = 0x8000_0000;

/// A pending interrupt source, in the priority order used when several
/// are pending at once.
#[derive(Clone, Copy, Debug, PartialEq, Eq, Structural)]
pub enum Interrupt {
    SupervisorSoftwareInterrupt,
    MachineSoftwareInterrupt,
    SupervisorTimerInterrupt,
    MachineTimerInterrupt,
    SupervisorExternalInterrupt,
    MachineExternalInterrupt,
}

impl Interrupt {
    /// The cause value recorded into scause/mcause: the interrupt number
    /// with the high bit set to mark an asynchronous origin.
    pub open spec fn spec_code(self) -> u32 {
        match self {
            Interrupt::SupervisorSoftwareInterrupt => 0x8000_0001,
            Interrupt::MachineSoftwareInterrupt => 0x8000_0003,
            Interrupt::SupervisorTimerInterrupt => 0x8000_0005,
            Interrupt::MachineTimerInterrupt => 0x8000_0007,
            Interrupt::SupervisorExternalInterrupt => 0x8000_0009,
            Interrupt::MachineExternalInterrupt => 0x8000_000b,
        }
    }

    /// The bit this source occupies in the mip and mie registers.
    pub open spec fn spec_pending_mask(self) -> u32 {
        match self {
            Interrupt::SupervisorSoftwareInterrupt => MASK_SSIP,
            Interrupt::MachineSoftwareInterrupt => MASK_MSIP,
            Interrupt::SupervisorTimerInterrupt => MASK_STIP,
            Interrupt::MachineTimerInterrupt => MASK_MTIP,
            Interrupt::SupervisorExternalInterrupt => MASK_SEIP,
            Interrupt::MachineExternalInterrupt => MASK_MEIP,
        }
    }

    pub fn code(self) -> (r: u32)
        ensures
            r == self.spec_code(),
    {
        match self {
            Interrupt::SupervisorSoftwareInterrupt => 0x8000_0001,
            Interrupt::MachineSoftwareInterrupt => 0x8000_0003,
            Interrupt::SupervisorTimerInterrupt => 0x8000_0005,
            Interrupt::MachineTimerInterrupt => 0x8000_0007,
            Interrupt::SupervisorExternalInterrupt => 0x8000_0009,
            Interrupt::MachineExternalInterrupt => 0x8000_000b,
        }
    }
}

} // verus!
