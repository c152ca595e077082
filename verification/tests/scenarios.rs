use rvemu::cpu::{Cpu, MACHINE, SUPERVISOR, USER};
use rvemu::csr::{MCAUSE, MEDELEG, MEPC, MIE, MIP, MSTATUS, MTVEC, SCAUSE, SEPC, STVEC};
use rvemu::exceptions::Exception;
use rvemu::param::DRAM_BASE;

fn img(words: &[u32]) -> Vec<u8> {
    let mut v = Vec::new();
    for w in words {
        v.extend_from_slice(&w.to_le_bytes());
    }
    v
}

fn boot(words: &[u32]) -> Cpu {
    let mut c = Cpu::new();
    c.load_binary(&img(words)).unwrap();
    c
}

fn run_until_trap(c: &mut Cpu, max_steps: u32) -> Exception {
    for _ in 0..max_steps {
        if let Err(e) = c.step() {
            return e;
        }
    }
    panic!("no trap within {} steps", max_steps);
}

fn csr(c: &Cpu, addr: usize) -> u32 {
    c.csr_load(addr).unwrap()
}

#[test]
fn scenario_addi_and_register_zero() {
    // addi x1,x0,5; addi x0,x0,7; ecall
    let mut c = boot(&[0x0050_0093, 0x0070_0013, 0x0000_0073]);
    let e = run_until_trap(&mut c, 10);
    assert_eq!(e, Exception::EnvironmentCallFromMMode(DRAM_BASE + 8));
    assert_eq!(c.read_reg(1), 5);
    assert_eq!(c.read_reg(0), 0);
    assert_eq!(csr(&c, MCAUSE), 11);
    assert_eq!(csr(&c, MEPC), DRAM_BASE + 8);
}

#[test]
fn scenario_signed_branch() {
    // addi x1,x0,-1; addi x2,x0,1; blt x1,x2,+8; addi x3,x0,7; addi x4,x0,9; ecall
    let mut c = boot(&[
        0xfff0_0093,
        0x0010_0113,
        0x0020_C463,
        0x0070_0193,
        0x0090_0213,
        0x0000_0073,
    ]);
    let e = run_until_trap(&mut c, 10);
    assert_eq!(e, Exception::EnvironmentCallFromMMode(DRAM_BASE + 20));
    assert_eq!(c.read_reg(3), 0);
    assert_eq!(c.read_reg(4), 9);
}

#[test]
fn scenario_load_store_round_trip() {
    // lui x1,0x80001; sw x0,0(x1); lui x2,0xDEADC; addi x2,x2,-273;
    // sw x2,0(x1); addi x2,x0,0; lw x2,0(x1); ecall
    let mut c = boot(&[
        0x8000_10b7,
        0x0000_a023,
        0xdead_c137,
        0xeef1_0113,
        0x0020_a023,
        0x0000_0113,
        0x0000_a103,
        0x0000_0073,
    ]);
    let e = run_until_trap(&mut c, 20);
    assert_eq!(e, Exception::EnvironmentCallFromMMode(DRAM_BASE + 28));
    assert_eq!(c.read_reg(2), 0xDEAD_BEEF);
    assert_eq!(c.load(0x8000_1000, 32), Ok(0xDEAD_BEEF));
}

#[test]
fn scenario_amoadd() {
    let mut c = Cpu::new();
    c.load_binary(&img(&[0x0020_a1af, 0x0000_0073])).unwrap(); // amoadd.w x3,x2,(x1); ecall
    c.store(0x8000_2000, 32, 10).unwrap();
    c.write_reg(1, 0x8000_2000);
    c.write_reg(2, 3);
    let e = run_until_trap(&mut c, 10);
    assert_eq!(e, Exception::EnvironmentCallFromMMode(DRAM_BASE + 4));
    assert_eq!(c.read_reg(3), 10);
    assert_eq!(c.load(0x8000_2000, 32), Ok(13));
}

#[test]
fn scenario_div_by_zero() {
    // addi x1,x0,42; addi x2,x0,0; div x3,x1,x2; ecall
    let mut c = boot(&[0x02a0_0093, 0x0000_0113, 0x0220_c1b3, 0x0000_0073]);
    let e = run_until_trap(&mut c, 10);
    // No trap before the ecall: the quotient is the architectural
    // all-ones value.
    assert_eq!(e, Exception::EnvironmentCallFromMMode(DRAM_BASE + 12));
    assert_eq!(c.read_reg(3), 0xffff_ffff);
}

#[test]
fn scenario_trap_delegation() {
    // Delegate ECALL-from-U, point mepc at user code and stvec at the
    // supervisor handler, clear MPP, and drop to user mode via MRET;
    // the ecall from user mode must land in supervisor mode.
    let mut c = boot(&[
        0x1000_0093, // addi x1,x0,0x100        medeleg bit 8
        0x3020_9073, // csrrw x0,medeleg,x1
        0x8000_0137, // lui x2,0x80000
        0x0301_0113, // addi x2,x2,0x30         user entry
        0x3411_1073, // csrrw x0,mepc,x2
        0x8000_01b7, // lui x3,0x80000
        0x0401_8193, // addi x3,x3,0x40         supervisor vector
        0x1051_9073, // csrrw x0,stvec,x3
        0x3000_1073, // csrrw x0,mstatus,x0     MPP = USER
        0x3020_0073, // mret
        0x0000_0013, // nop (padding)
        0x0000_0013, // nop (padding)
        0x0000_0073, // ecall at 0x80000030
    ]);
    assert_eq!(c.get_mode(), MACHINE);
    for _ in 0..10 {
        assert_eq!(c.step(), Ok(()));
    }
    // After the MRET the hart is in user mode at the user entry.
    assert_eq!(c.get_mode(), USER);
    assert_eq!(c.get_pc(), DRAM_BASE + 0x30);
    let e = c.step().unwrap_err();
    assert_eq!(e, Exception::EnvironmentCallFromUMode(DRAM_BASE + 0x30));
    assert_eq!(c.get_mode(), SUPERVISOR);
    assert_eq!(csr(&c, SCAUSE), 8);
    assert_eq!(csr(&c, SEPC), DRAM_BASE + 0x30);
    assert_eq!(c.get_pc(), DRAM_BASE + 0x40);
    assert_eq!(csr(&c, STVEC), DRAM_BASE + 0x40);
}

#[test]
fn trap_entry_saves_enable_and_privilege() {
    // With MIE set in mstatus, an ecall from machine mode must move it
    // to MPIE, clear MIE, record MACHINE in MPP, and jump to mtvec.
    let mut c = boot(&[0x0000_0073]);
    c.csr_store(MSTATUS, 0x8).unwrap();
    c.csr_store(MTVEC, DRAM_BASE + 0x80).unwrap();
    let e = run_until_trap(&mut c, 2);
    assert_eq!(e, Exception::EnvironmentCallFromMMode(DRAM_BASE));
    let m = csr(&c, MSTATUS);
    assert_eq!((m >> 7) & 1, 1, "MPIE took the prior MIE");
    assert_eq!((m >> 3) & 1, 0, "MIE cleared");
    assert_eq!((m >> 11) & 3, 3, "MPP holds the prior mode");
    assert_eq!(c.get_pc(), DRAM_BASE + 0x80);
    assert_eq!(csr(&c, MTVEC), DRAM_BASE + 0x80);
}

#[test]
fn mret_after_trap_restores_mode_enable_and_pc() {
    // ecall at DRAM_BASE traps to the handler, which immediately
    // returns; the hart must come back to machine mode at DRAM_BASE
    // with MIE restored, and retire the instruction after the mret
    // round trip.
    let mut c = boot(&[
        0x0000_0073, // ecall -> handler at +8
        0x0000_0013, // nop
        0x3020_0073, // handler: mret -> back to DRAM_BASE... but mepc points here
    ]);
    c.csr_store(MSTATUS, 0x8).unwrap();
    c.csr_store(MTVEC, DRAM_BASE + 8).unwrap();
    let e = run_until_trap(&mut c, 1);
    assert_eq!(e, Exception::EnvironmentCallFromMMode(DRAM_BASE));
    assert_eq!(c.get_pc(), DRAM_BASE + 8);
    assert_eq!(c.step(), Ok(())); // mret
    assert_eq!(c.get_mode(), MACHINE);
    assert_eq!(c.get_pc(), DRAM_BASE, "pc restored to the trapping instruction");
    assert_eq!((csr(&c, MSTATUS) >> 3) & 1, 1, "MIE restored from MPIE");
}

#[test]
fn interrupt_priority_and_pending_clear() {
    let mut c = boot(&[0x0000_0013]); // nop
    c.csr_store(MSTATUS, 0x8).unwrap(); // MIE
    c.csr_store(MIE, 0x888).unwrap(); // software, timer, external
    c.csr_store(MIP, 0x880).unwrap(); // timer and external pending
    c.csr_store(MTVEC, DRAM_BASE + 0x100).unwrap();
    assert_eq!(c.step(), Ok(()));
    // Machine external wins, its pending bit is cleared.
    assert_eq!(csr(&c, MCAUSE), 0x8000_000b);
    assert_eq!(csr(&c, MIP), 0x80);
    assert_eq!(csr(&c, MEPC), DRAM_BASE + 4);
    assert_eq!(c.get_pc(), DRAM_BASE + 0x100);
    let m = csr(&c, MSTATUS);
    assert_eq!((m >> 7) & 1, 1);
    assert_eq!((m >> 3) & 1, 0);
}

#[test]
fn vectored_interrupt_lands_at_base_plus_four_times_cause() {
    let mut c = boot(&[0x0000_0013]);
    c.csr_store(MSTATUS, 0x8).unwrap();
    c.csr_store(MIE, 0x80).unwrap();
    c.csr_store(MIP, 0x80).unwrap(); // machine timer, cause 7
    c.csr_store(MTVEC, (DRAM_BASE + 0x100) | 1).unwrap(); // vectored
    assert_eq!(c.step(), Ok(()));
    assert_eq!(csr(&c, MCAUSE), 0x8000_0007);
    assert_eq!(c.get_pc(), DRAM_BASE + 0x100 + 4 * 7);
}

#[test]
fn interrupts_are_gated_by_the_global_enable() {
    let mut c = boot(&[0x0000_0013]);
    c.csr_store(MIE, 0x80).unwrap();
    c.csr_store(MIP, 0x80).unwrap();
    // mstatus.MIE is zero in machine mode: nothing may fire.
    assert_eq!(c.step(), Ok(()));
    assert_eq!(csr(&c, MCAUSE), 0);
    assert_eq!(csr(&c, MIP), 0x80);
    assert_eq!(c.get_pc(), DRAM_BASE + 4);
}

#[test]
fn fetch_from_outside_dram_is_a_fatal_fault() {
    // mtvec is zero, so after an ecall the next fetch at pc zero
    // faults; that fault is fatal and ends a run.
    let mut c = boot(&[0x0000_0073]);
    assert_eq!(
        c.step(),
        Err(Exception::EnvironmentCallFromMMode(DRAM_BASE))
    );
    assert_eq!(c.get_pc(), 0);
    let e = c.step().unwrap_err();
    assert_eq!(e, Exception::LoadAccessFault(0));
    assert!(e.is_fatal());
    assert_eq!(csr(&c, MCAUSE), 5);
}

#[test]
fn csr_instructions_read_modify_write() {
    let mut c = boot(&[0x0000_0013]);
    c.write_reg(1, 0xff);
    c.write_reg(2, 0x0f);
    // csrrw x3, mscratch, x1
    assert_eq!(c.execute(0x3400_91f3), Ok(DRAM_BASE + 4));
    assert_eq!(c.read_reg(3), 0);
    assert_eq!(csr(&c, 0x340), 0xff);
    // csrrc x3, mscratch, x2
    assert_eq!(c.execute(0x3401_31f3), Ok(DRAM_BASE + 4));
    assert_eq!(c.read_reg(3), 0xff);
    assert_eq!(csr(&c, 0x340), 0xf0);
    // csrrs x3, mscratch, x2
    assert_eq!(c.execute(0x3401_21f3), Ok(DRAM_BASE + 4));
    assert_eq!(c.read_reg(3), 0xf0);
    assert_eq!(csr(&c, 0x340), 0xff);
    // csrrs with rs1 = x0 must not write (read-only semantics)
    assert_eq!(c.execute(0x3400_21f3), Ok(DRAM_BASE + 4));
    assert_eq!(c.read_reg(3), 0xff);
    assert_eq!(csr(&c, 0x340), 0xff);
    // csrrwi x3, mscratch, 0x15
    assert_eq!(c.execute(0x340a_d1f3), Ok(DRAM_BASE + 4));
    assert_eq!(csr(&c, 0x340), 0x15);
    // csrrci x3, mscratch, 0x5
    assert_eq!(c.execute(0x3402_f1f3), Ok(DRAM_BASE + 4));
    assert_eq!(csr(&c, 0x340), 0x10);
    // csrrsi x3, mscratch, 0x2
    assert_eq!(c.execute(0x3401_61f3), Ok(DRAM_BASE + 4));
    assert_eq!(csr(&c, 0x340), 0x12);
}

#[test]
fn sret_requires_supervisor_and_mret_requires_machine() {
    let mut c = boot(&[
        0x3000_1073, // csrrw x0,mstatus,x0
        0x3020_0073, // mret with MPP=0 -> user mode
    ]);
    assert_eq!(c.step(), Ok(()));
    assert_eq!(c.step(), Ok(()));
    assert_eq!(c.get_mode(), USER);
    // Both trap returns are now illegal from user mode.
    assert_eq!(
        c.execute(0x3020_0073),
        Err(Exception::IllegalInstruction(0x3020_0073))
    );
    assert_eq!(
        c.execute(0x1020_0073),
        Err(Exception::IllegalInstruction(0x1020_0073))
    );
}

#[test]
fn sret_restores_supervisor_state() {
    let mut c = boot(&[0x0000_0013]);
    // Enter supervisor mode through an MRET with MPP = SUPERVISOR.
    c.csr_store(MSTATUS, 1 << 11).unwrap();
    c.csr_store(MEPC, DRAM_BASE).unwrap();
    assert_eq!(c.execute(0x3020_0073), Ok(DRAM_BASE));
    assert_eq!(c.get_mode(), SUPERVISOR);
    // SPIE set, SPP = USER; sret must restore SIE from SPIE and drop to
    // user mode at sepc with the low bits cleared.
    c.csr_store(rvemu::csr::SSTATUS, 1 << 5).unwrap();
    c.csr_store(rvemu::csr::SEPC, DRAM_BASE + 0x12).unwrap();
    assert_eq!(c.execute(0x1020_0073), Ok(DRAM_BASE + 0x10));
    assert_eq!(c.get_mode(), USER);
    let s = csr(&c, rvemu::csr::SSTATUS);
    assert_eq!((s >> 1) & 1, 1, "SIE restored from SPIE");
    assert_eq!((s >> 5) & 1, 1, "SPIE set after sret");
    assert_eq!((s >> 8) & 1, 0, "SPP cleared");
}

#[test]
fn csr_instructions_reach_the_supervisor_views() {
    let mut c = boot(&[0x0000_0013]);
    c.csr_store(rvemu::csr::MIDELEG, 0x222).unwrap();
    c.csr_store(MIE, 0xfff).unwrap();
    // csrrw x3, sie, x0: reads mie & mideleg, then writes zero through
    // the mask.
    assert_eq!(c.execute(0x1040_11f3), Ok(DRAM_BASE + 4));
    assert_eq!(c.read_reg(3), 0x222);
    assert_eq!(csr(&c, MIE), 0xfff & !0x222);
}

#[test]
fn ecall_from_supervisor_mode() {
    let mut c = boot(&[0x0000_0073]);
    c.csr_store(MSTATUS, 1 << 11).unwrap(); // MPP = SUPERVISOR
    c.csr_store(MEPC, DRAM_BASE).unwrap();
    assert_eq!(c.execute(0x3020_0073), Ok(DRAM_BASE));
    assert_eq!(c.get_mode(), SUPERVISOR);
    let e = run_until_trap(&mut c, 1);
    assert_eq!(e, Exception::EnvironmentCallFromSMode(DRAM_BASE));
    assert_eq!(csr(&c, MCAUSE), 9);
}

#[test]
fn delegated_interrupt_lands_in_supervisor_mode() {
    let mut c = boot(&[0x0000_0013]);
    // Drop to supervisor mode, then arm a delegated supervisor timer
    // interrupt with the supervisor global enable set.
    c.csr_store(MSTATUS, 1 << 11).unwrap();
    c.csr_store(MEPC, DRAM_BASE).unwrap();
    assert_eq!(c.execute(0x3020_0073), Ok(DRAM_BASE));
    assert_eq!(c.get_mode(), SUPERVISOR);
    c.csr_store(rvemu::csr::MIDELEG, 1 << 5).unwrap();
    c.csr_store(MIE, 1 << 5).unwrap();
    c.csr_store(MIP, 1 << 5).unwrap();
    c.csr_store(rvemu::csr::SSTATUS, 0x2).unwrap(); // SIE
    c.csr_store(STVEC, DRAM_BASE + 0x200).unwrap();
    assert_eq!(c.step(), Ok(()));
    assert_eq!(c.get_mode(), SUPERVISOR);
    assert_eq!(csr(&c, SCAUSE), 0x8000_0005);
    assert_eq!(csr(&c, SEPC), DRAM_BASE + 4);
    assert_eq!(csr(&c, rvemu::csr::STVAL), 0);
    assert_eq!(c.get_pc(), DRAM_BASE + 0x200);
    assert_eq!(csr(&c, MIP), 0, "pending bit cleared");
    let s = csr(&c, rvemu::csr::SSTATUS);
    assert_eq!((s >> 5) & 1, 1, "SPIE took the prior SIE");
    assert_eq!((s >> 1) & 1, 0, "SIE cleared");
    assert_eq!((s >> 8) & 1, 1, "SPP holds the prior mode");
}

#[test]
fn ebreak_raises_breakpoint() {
    let mut c = boot(&[0x0010_0073]);
    let e = run_until_trap(&mut c, 1);
    assert_eq!(e, Exception::Breakpoint(DRAM_BASE));
    assert!(!e.is_fatal());
    assert_eq!(csr(&c, MCAUSE), 3);
}

#[test]
fn ecall_reports_the_current_mode() {
    let mut c = boot(&[0x0000_0073]);
    assert_eq!(
        c.execute(0x0000_0073),
        Err(Exception::EnvironmentCallFromMMode(DRAM_BASE))
    );
    c.csr_store(MEDELEG, 0).unwrap();
    c.handle_exception(Exception::EnvironmentCallFromMMode(DRAM_BASE));
    assert_eq!(csr(&c, MCAUSE), 11);
    assert_eq!(csr(&c, MEDELEG), 0);
}

#[test]
fn reset_clears_registers_and_restores_pc() {
    let mut c = boot(&[0x0050_0093, 0x0000_0073]);
    let _ = run_until_trap(&mut c, 5);
    assert_eq!(c.read_reg(1), 5);
    c.reset();
    assert_eq!(c.read_reg(1), 0);
    assert_eq!(c.get_pc(), DRAM_BASE);
    assert_eq!(c.read_reg(2), rvemu::param::DRAM_END);
}
