use rvemu::csr::{
    Csr, MASK_SSTATUS, MCAUSE, MEDELEG, MEPC, MIDELEG, MIE, MIP, MSCRATCH, MSTATUS, SIE, SIP,
    SSCRATCH, SSTATUS, STVEC,
};
use rvemu::exceptions::Exception;

#[test]
fn direct_csrs_read_back_what_was_written() {
    let mut c = Csr::new();
    for &a in &[MSTATUS, MEDELEG, MIDELEG, MIE, MIP, MEPC, MCAUSE, MSCRATCH, SSCRATCH, STVEC, 0, 0xfff]
    {
        c.store(a, 0xA5A5_0000 | a as u32).unwrap();
        assert_eq!(c.load(a), Ok(0xA5A5_0000 | a as u32));
    }
}

#[test]
fn sstatus_round_trip_is_masked() {
    let mut c = Csr::new();
    c.store(SSTATUS, 0xFFFF_FFFF).unwrap();
    assert_eq!(c.load(SSTATUS), Ok(MASK_SSTATUS));
    // Bits outside the mask stay unchanged in mstatus.
    assert_eq!(c.load(MSTATUS), Ok(MASK_SSTATUS));
    c.store(MSTATUS, 0xFFFF_FFFF).unwrap();
    c.store(SSTATUS, 0).unwrap();
    assert_eq!(c.load(MSTATUS), Ok(0xFFFF_FFFF & !MASK_SSTATUS));
}

#[test]
fn sie_reads_and_writes_through_mideleg() {
    let mut c = Csr::new();
    c.store(MIDELEG, 0x222).unwrap();
    c.store(MIE, 0xFFF).unwrap();
    assert_eq!(c.load(SIE), Ok(0x222));
    c.store(SIE, 0).unwrap();
    // Only the delegated bits were cleared in mie.
    assert_eq!(c.load(MIE), Ok(0xFFF & !0x222));
    assert_eq!(c.load(SIE), Ok(0));
}

#[test]
fn sip_reads_and_writes_through_mideleg() {
    let mut c = Csr::new();
    c.store(MIDELEG, 0x2).unwrap();
    c.store(MIP, 0x0A2).unwrap();
    assert_eq!(c.load(SIP), Ok(0x2));
    c.store(SIP, 0).unwrap();
    assert_eq!(c.load(MIP), Ok(0x0A0));
}

#[test]
fn csr_address_out_of_range_is_illegal() {
    let mut c = Csr::new();
    assert_eq!(c.load(4096), Err(Exception::IllegalInstruction(4096)));
    assert_eq!(c.store(5000, 1), Err(Exception::IllegalInstruction(5000)));
}

#[test]
fn delegation_predicates_follow_the_bitmasks() {
    let mut c = Csr::new();
    c.store(MEDELEG, 1 << 8).unwrap();
    c.store(MIDELEG, 1 << 5).unwrap();
    assert!(c.is_medelegated(8));
    assert!(!c.is_medelegated(9));
    assert!(c.is_midelegated(0x8000_0005));
    assert!(!c.is_midelegated(0x8000_0007));
}
