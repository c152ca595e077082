//! Synchronous exception causes.

use vstd::prelude::*;

verus! {

/// A synchronous exception, carrying a 32-bit payload: the faulting
/// address, the program counter, or the offending instruction word.
#[derive(Clone, Copy, Debug, PartialEq, Eq, Structural)]
pub enum Exception {
    InstructionAddrMisaligned(u32),
    InstructionAccessFault(u32),
    IllegalInstruction(u32),
    Breakpoint(u32),
    LoadAccessMisaligned(u32),
    LoadAccessFault(u32),
    StoreAMOAddrMisaligned(u32),
    StoreAMOAccessFault(u32),
    EnvironmentCallFromUMode(u32),
    EnvironmentCallFromSMode(u32),
    EnvironmentCallFromMMode(u32),
    InstructionPageFault(u32),
    LoadPageFault(u32),
    StoreAMOPageFault(u32),
}

impl Exception {
    /// The payload recorded into stval/mtval when the trap is delivered.
    pub open spec fn spec_value(self) -> u32 {
        match self {
            Exception::InstructionAddrMisaligned(x) => x,
            Exception::InstructionAccessFault(x) => x,
            Exception::IllegalInstruction(x) => x,
            Exception::Breakpoint(x) => x,
            Exception::LoadAccessMisaligned(x) => x,
            Exception::LoadAccessFault(x) => x,
            Exception::StoreAMOAddrMisaligned(x) => x,
            Exception::StoreAMOAccessFault(x) => x,
            Exception::EnvironmentCallFromUMode(x) => x,
            Exception::EnvironmentCallFromSMode(x) => x,
            Exception::EnvironmentCallFromMMode(x) => x,
            Exception::InstructionPageFault(x) => x,
            Exception::LoadPageFault(x) => x,
            Exception::StoreAMOPageFault(x) => x,
        }
    }

    /// The architectural cause number recorded into scause/mcause.
    pub open spec fn spec_code(self) -> u32 {
        match self {
            Exception::InstructionAddrMisaligned(_) => 0,
            Exception::InstructionAccessFault(_) => 1,
            Exception::IllegalInstruction(_) => 2,
            Exception::Breakpoint(_) => 3,
            Exception::LoadAccessMisaligned(_) => 4,
            Exception::LoadAccessFault(_) => 5,
            Exception::StoreAMOAddrMisaligned(_) => 6,
            Exception::StoreAMOAccessFault(_) => 7,
            Exception::EnvironmentCallFromUMode(_) => 8,
            Exception::EnvironmentCallFromSMode(_) => 9,
            Exception::EnvironmentCallFromMMode(_) => 11,
            Exception::InstructionPageFault(_) => 12,
            Exception::LoadPageFault(_) => 13,
            Exception::StoreAMOPageFault(_) => 15,
        }
    }

    /// Whether this emulator's policy halts the run loop after delivering
    /// the trap.
    pub open spec fn spec_is_fatal(self) -> bool {
        match self {
            Exception::IllegalInstruction(_) => true,
            Exception::InstructionAccessFault(_) => true,
            Exception::LoadAccessFault(_) => true,
            Exception::StoreAMOAccessFault(_) => true,
            Exception::StoreAMOAddrMisaligned(_) => true,
            _ => false,
        }
    }

    pub fn value(self) -> (r: u32)
        ensures
            r == self.spec_value(),
    {
        match self {
            Exception::InstructionAddrMisaligned(x) => x,
            Exception::InstructionAccessFault(x) => x,
            Exception::IllegalInstruction(x) => x,
            Exception::Breakpoint(x) => x,
            Exception::LoadAccessMisaligned(x) => x,
            Exception::LoadAccessFault(x) => x,
            Exception::StoreAMOAddrMisaligned(x) => x,
            Exception::StoreAMOAccessFault(x) => x,
            Exception::EnvironmentCallFromUMode(x) => x,
            Exception::EnvironmentCallFromSMode(x) => x,
            Exception::EnvironmentCallFromMMode(x) => x,
            Exception::InstructionPageFault(x) => x,
            Exception::LoadPageFault(x) => x,
            Exception::StoreAMOPageFault(x) => x,
        }
    }

    pub fn code(&self) -> (r: u32)
        ensures
            r == self.spec_code(),
            r <= 15,
    {
        match self {
            Exception::InstructionAddrMisaligned(_) => 0,
            Exception::InstructionAccessFault(_) => 1,
            Exception::IllegalInstruction(_) => 2,
            Exception::Breakpoint(_) => 3,
            Exception::LoadAccessMisaligned(_) => 4,
            Exception::LoadAccessFault(_) => 5,
            Exception::StoreAMOAddrMisaligned(_) => 6,
            Exception::StoreAMOAccessFault(_) => 7,
            Exception::EnvironmentCallFromUMode(_) => 8,
            Exception::EnvironmentCallFromSMode(_) => 9,
            Exception::EnvironmentCallFromMMode(_) => 11,
            Exception::InstructionPageFault(_) => 12,
            Exception::LoadPageFault(_) => 13,
            Exception::StoreAMOPageFault(_) => 15,
        }
    }

    pub fn is_fatal(&self) -> (r: bool)
        ensures
            r == self.spec_is_fatal(),
    {
        match self {
            Exception::IllegalInstruction(_)
            | Exception::InstructionAccessFault(_)
            | Exception::LoadAccessFault(_)
            | Exception::StoreAMOAccessFault(_)
            | Exception::StoreAMOAddrMisaligned(_) => true,
            _ => false,
        }
    }

    /// A single-line host-visible description of the trap.
    pub fn describe(&self) -> (r: &'static str) {
        match self {
            Exception::InstructionAddrMisaligned(_) => "instruction address misaligned",
            Exception::InstructionAccessFault(_) => "instruction access fault",
            Exception::IllegalInstruction(_) => "illegal instruction",
            Exception::Breakpoint(_) => "breakpoint",
            Exception::LoadAccessMisaligned(_) => "load address misaligned",
            Exception::LoadAccessFault(_) => "load access fault",
            Exception::StoreAMOAddrMisaligned(_) => "store or AMO address misaligned",
            Exception::StoreAMOAccessFault(_) => "store or AMO access fault",
            Exception::EnvironmentCallFromUMode(_) => "environment call from U-mode",
            Exception::EnvironmentCallFromSMode(_) => "environment call from S-mode",
            Exception::EnvironmentCallFromMMode(_) => "environment call from M-mode",
            Exception::InstructionPageFault(_) => "instruction page fault",
            Exception::LoadPageFault(_) => "load page fault",
            Exception::StoreAMOPageFault(_) => "store or AMO page fault",
        }
    }
}

} // verus!
