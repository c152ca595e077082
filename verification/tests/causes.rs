use rvemu::exceptions::Exception;
use rvemu::interrupt::Interrupt;

#[test]
fn exception_codes_follow_the_architecture() {
    assert_eq!(Exception::InstructionAddrMisaligned(1).code(), 0);
    assert_eq!(Exception::InstructionAccessFault(1).code(), 1);
    assert_eq!(Exception::IllegalInstruction(1).code(), 2);
    assert_eq!(Exception::Breakpoint(1).code(), 3);
    assert_eq!(Exception::LoadAccessMisaligned(1).code(), 4);
    assert_eq!(Exception::LoadAccessFault(1).code(), 5);
    assert_eq!(Exception::StoreAMOAddrMisaligned(1).code(), 6);
    assert_eq!(Exception::StoreAMOAccessFault(1).code(), 7);
    assert_eq!(Exception::EnvironmentCallFromUMode(1).code(), 8);
    assert_eq!(Exception::EnvironmentCallFromSMode(1).code(), 9);
    assert_eq!(Exception::EnvironmentCallFromMMode(1).code(), 11);
    assert_eq!(Exception::InstructionPageFault(1).code(), 12);
    assert_eq!(Exception::LoadPageFault(1).code(), 13);
    assert_eq!(Exception::StoreAMOPageFault(1).code(), 15);
}

#[test]
fn exception_value_returns_the_payload() {
    assert_eq!(Exception::IllegalInstruction(0xDEAD).value(), 0xDEAD);
    assert_eq!(Exception::Breakpoint(0x8000_0004).value(), 0x8000_0004);
    assert_eq!(Exception::LoadAccessFault(0x42).value(), 0x42);
}

#[test]
fn fatal_exceptions_are_exactly_the_five_fatal_kinds() {
    assert!(Exception::IllegalInstruction(0).is_fatal());
    assert!(Exception::InstructionAccessFault(0).is_fatal());
    assert!(Exception::LoadAccessFault(0).is_fatal());
    assert!(Exception::StoreAMOAccessFault(0).is_fatal());
    assert!(Exception::StoreAMOAddrMisaligned(0).is_fatal());
    assert!(!Exception::InstructionAddrMisaligned(0).is_fatal());
    assert!(!Exception::Breakpoint(0).is_fatal());
    assert!(!Exception::LoadAccessMisaligned(0).is_fatal());
    assert!(!Exception::EnvironmentCallFromUMode(0).is_fatal());
    assert!(!Exception::EnvironmentCallFromSMode(0).is_fatal());
    assert!(!Exception::EnvironmentCallFromMMode(0).is_fatal());
    assert!(!Exception::InstructionPageFault(0).is_fatal());
    assert!(!Exception::LoadPageFault(0).is_fatal());
    assert!(!Exception::StoreAMOPageFault(0).is_fatal());
}

#[test]
fn interrupt_codes_carry_the_async_bit() {
    assert_eq!(Interrupt::SupervisorSoftwareInterrupt.code(), 0x8000_0001);
    assert_eq!(Interrupt::MachineSoftwareInterrupt.code(), 0x8000_0003);
    assert_eq!(Interrupt::SupervisorTimerInterrupt.code(), 0x8000_0005);
    assert_eq!(Interrupt::MachineTimerInterrupt.code(), 0x8000_0007);
    assert_eq!(Interrupt::SupervisorExternalInterrupt.code(), 0x8000_0009);
    assert_eq!(Interrupt::MachineExternalInterrupt.code(), 0x8000_000b);
}
