//! The CSR file: 4096 words of control and status state.
//!
//! Most addresses are plain storage. Three supervisor-level addresses
//! are views of machine-level registers: sstatus is mstatus through
//! `MASK_SSTATUS`, and sie/sip are mie/mip through mideleg. Reads and
//! writes of those addresses never touch separate storage; they project
//! into the backing machine register.

use vstd::prelude::*;
use vstd::pervasive::VecAdditionalExecFns;

use crate::exceptions::Exception;

verus! {

pub const NUM_CSRS: usize = 4096;

/// ISA description register.
pub const MISA: usize = 0x301;

/// Vendor identifier.
pub const MVENDORID: usize = 0xf11;

/// Hardware thread identifier.
pub const MHARTID: usize = 0xf14;

/// Machine status register.
pub const MSTATUS: usize = 0x300;

/// Machine exception delegation register.
pub const MEDELEG: usize = 0x302;

/// Machine interrupt delegation register.
pub const MIDELEG: usize = 0x303;

/// Machine interrupt-enable register.
pub const MIE: usize = 0x304;

/// Machine trap-handler base address.
pub const MTVEC: usize = 0x305;

/// Machine counter enable.
pub const MCOUNTEREN: usize = 0x306;

/// Scratch register for machine trap handlers.
pub const MSCRATCH: usize = 0x340;

/// Machine exception program counter.
pub const MEPC: usize = 0x341;

/// Machine trap cause.
pub const MCAUSE: usize = 0x342;

/// Machine bad address or instruction.
pub const MTVAL: usize = 0x343;

/// Machine interrupt pending.
pub const MIP: usize = 0x344;

/// Supervisor status register: a view of mstatus.
pub const SSTATUS: usize = 0x100;

/// Supervisor interrupt-enable register: a view of mie.
pub const SIE: usize = 0x104;

/// Supervisor trap handler base address.
pub const STVEC: usize = 0x105;

/// Scratch register for supervisor trap handlers.
pub const SSCRATCH: usize = 0x140;

/// Supervisor exception program counter.
pub const SEPC: usize = 0x141;

/// Supervisor trap cause.
pub const SCAUSE: usize = 0x142;

/// Supervisor bad address or instruction.
pub const STVAL: usize = 0x143;

/// Supervisor interrupt pending: a view of mip.
pub const SIP: usize = 0x144;

/// Supervisor address translation and protection.
pub const SATP: usize = 0x180;

// mstatus and sstatus field masks.
pub const MASK_SIE: u32 = 1 << 1;

pub const MASK_MIE: u32 = 1 << 3;

pub const MASK_SPIE: u32 = 1 << 5;

pub const MASK_UBE: u32 = 1 << 6;

pub const MASK_MPIE: u32 = 1 << 7;

pub const MASK_SPP: u32 = 1 << 8;

pub const MASK_VS: u32 = 0b11 << 9;

pub const MASK_MPP: u32 = 0b11 << 11;

pub const MASK_FS: u32 = 0b11 << 13;

pub const MASK_XS: u32 = 0b11 << 15;

pub const MASK_MPRV: u32 = 1 << 17;

pub const MASK_SUM: u32 = 1 << 18;

pub const MASK_MXR: u32 = 1 << 19;

pub const MASK_TVM: u32 = 1 << 20;

pub const MASK_TW: u32 = 1 << 21;

pub const MASK_TSR: u32 = 1 << 22;

/// The sstatus view: SIE, SPIE, UBE, SPP, FS, XS, SUM and MXR.
pub const MASK_SSTATUS: u32 = MASK_SIE | MASK_SPIE | MASK_UBE | MASK_SPP | MASK_FS | MASK_XS
    | MASK_SUM | MASK_MXR;

// mip / sip field masks.
pub const MASK_SSIP: u32 = 1 << 1;

pub const MASK_MSIP: u32 = 1 << 3;

pub const MASK_STIP: u32 = 1 << 5;

pub const MASK_MTIP: u32 = 1 << 7;

pub const MASK_SEIP: u32 = 1 << 9;

pub const MASK_MEIP: u32 = 1 << 11;

/// Whether bit `i` of `x` is set.
pub open spec fn bit_set(x: u32, i: u32) -> bool {
    (x >> i) & 1 == 1
}

/// What a CSR read at `addr` returns, including the three supervisor
/// views.
pub open spec fn csr_read_spec(csrs: Seq<u32>, addr: int) -> u32 {
    if addr == SIE {
        csrs[MIE as int] & csrs[MIDELEG as int]
    } else if addr == SIP {
        csrs[MIP as int] & csrs[MIDELEG as int]
    } else if addr == SSTATUS {
        csrs[MSTATUS as int] & MASK_SSTATUS
    } else {
        csrs[addr]
    }
}

/// The CSR file after a write of `value` to `addr`: writes to the three
/// supervisor views update only the masked bits of the backing machine
/// register.
pub open spec fn csr_write_spec(csrs: Seq<u32>, addr: int, value: u32) -> Seq<u32> {
    if addr == SIE {
        csrs.update(
            MIE as int,
            (csrs[MIE as int] & !csrs[MIDELEG as int]) | (value & csrs[MIDELEG as int]),
        )
    } else if addr == SIP {
        csrs.update(
            MIP as int,
            (csrs[MIP as int] & !csrs[MIDELEG as int]) | (value & csrs[MIDELEG as int]),
        )
    } else if addr == SSTATUS {
        csrs.update(MSTATUS as int, (csrs[MSTATUS as int] & !MASK_SSTATUS) | (value & MASK_SSTATUS))
    } else {
        csrs.update(addr, value)
    }
}

/// Any directly stored CSR address reads back exactly what was written:
/// every address below 4096 other than the three supervisor views.
pub proof fn lemma_csr_store_load_direct(csrs: Seq<u32>, addr: int, value: u32)
    requires
        csrs.len() == NUM_CSRS,
        0 <= addr < NUM_CSRS,
        addr != SSTATUS,
        addr != SIE,
        addr != SIP,
    ensures
        csr_read_spec(csr_write_spec(csrs, addr, value), addr) == value,
{
}

/// A write to sstatus reads back as the written value filtered through
/// `MASK_SSTATUS`.
pub proof fn lemma_csr_sstatus_round_trip(csrs: Seq<u32>, value: u32)
    requires
        csrs.len() == NUM_CSRS,
    ensures
        csr_read_spec(csr_write_spec(csrs, SSTATUS as int, value), SSTATUS as int) == value
            & MASK_SSTATUS,
{
    let m = csrs[MSTATUS as int];
    assert(((m & !MASK_SSTATUS) | (value & MASK_SSTATUS)) & MASK_SSTATUS == value & MASK_SSTATUS)
        by (bit_vector);
}

/// Writes to the supervisor views leave the bits outside the respective
/// mask unchanged in the backing machine register.
pub proof fn lemma_csr_view_write_preserves_backing(csrs: Seq<u32>, value: u32)
    requires
        csrs.len() == NUM_CSRS,
    ensures
        csr_write_spec(csrs, SSTATUS as int, value)[MSTATUS as int] & !MASK_SSTATUS
            == csrs[MSTATUS as int] & !MASK_SSTATUS,
        csr_write_spec(csrs, SIE as int, value)[MIE as int] & !csrs[MIDELEG as int]
            == csrs[MIE as int] & !csrs[MIDELEG as int],
        csr_write_spec(csrs, SIP as int, value)[MIP as int] & !csrs[MIDELEG as int]
            == csrs[MIP as int] & !csrs[MIDELEG as int],
{
    let m = csrs[MSTATUS as int];
    assert(((m & !MASK_SSTATUS) | (value & MASK_SSTATUS)) & !MASK_SSTATUS == m & !MASK_SSTATUS)
        by (bit_vector);
    let mie = csrs[MIE as int];
    let mid = csrs[MIDELEG as int];
    assert(((mie & !mid) | (value & mid)) & !mid == mie & !mid) by (bit_vector);
    let mip = csrs[MIP as int];
    assert(((mip & !mid) | (value & mid)) & !mid == mip & !mid) by (bit_vector);
}

/// The CSR file.
pub struct Csr {
    csrs: Vec<u32>,
}

impl View for Csr {
    type V = Seq<u32>;

    closed spec fn view(&self) -> Seq<u32> {
        self.csrs@
    }
}

impl Csr {
    pub open spec fn wf(&self) -> bool {
        self@.len() == NUM_CSRS
    }

    /// A CSR file with every register zero.
    pub fn new() -> (r: Csr)
        ensures
            r.wf(),
            forall|i: int| 0 <= i < NUM_CSRS ==> r@[i] == 0u32,
    {
        Csr { csrs: vec![0u32; NUM_CSRS] }
    }

    /// Reads the CSR at `addr`; addresses at or above 4096 raise
    /// IllegalInstruction with the address as payload.
    pub fn load(&self, addr: usize) -> (r: Result<u32, Exception>)
        requires
            self.wf(),
        ensures
            addr < NUM_CSRS ==> r == Ok::<u32, Exception>(csr_read_spec(self@, addr as int)),
            addr >= NUM_CSRS ==> r == Err::<u32, Exception>(
                Exception::IllegalInstruction(addr as u32),
            ),
    {
        if addr == SIE {
            Ok(self.csrs[MIE] & self.csrs[MIDELEG])
        } else if addr == SIP {
            Ok(self.csrs[MIP] & self.csrs[MIDELEG])
        } else if addr == SSTATUS {
            Ok(self.csrs[MSTATUS] & MASK_SSTATUS)
        } else if addr < NUM_CSRS {
            Ok(self.csrs[addr])
        } else {
            Err(Exception::IllegalInstruction(#[verifier::truncate] (addr as u32)))
        }
    }

    /// Writes the CSR at `addr`; addresses at or above 4096 raise
    /// IllegalInstruction with the address as payload.
    pub fn store(&mut self, addr: usize, value: u32) -> (r: Result<(), Exception>)
        requires
            old(self).wf(),
        ensures
            final(self).wf(),
            addr < NUM_CSRS ==> r == Ok::<(), Exception>(()) && final(self)@ == csr_write_spec(
                old(self)@,
                addr as int,
                value,
            ),
            addr >= NUM_CSRS ==> r == Err::<(), Exception>(
                Exception::IllegalInstruction(addr as u32),
            ) && final(self)@ == old(self)@,
    {
        if addr == SIE {
            let mideleg = self.csrs[MIDELEG];
            let mie = self.csrs[MIE];
            self.csrs.set(MIE, (mie & !mideleg) | (value & mideleg));
            Ok(())
        } else if addr == SIP {
            let mideleg = self.csrs[MIDELEG];
            let mip = self.csrs[MIP];
            self.csrs.set(MIP, (mip & !mideleg) | (value & mideleg));
            Ok(())
        } else if addr == SSTATUS {
            let mstatus = self.csrs[MSTATUS];
            self.csrs.set(MSTATUS, (mstatus & !MASK_SSTATUS) | (value & MASK_SSTATUS));
            Ok(())
        } else if addr < NUM_CSRS {
            self.csrs.set(addr, value);
            Ok(())
        } else {
            Err(Exception::IllegalInstruction(#[verifier::truncate] (addr as u32)))
        }
    }

    /// Whether synchronous cause `cause` is delegated to supervisor mode:
    /// bit `cause` of medeleg.
    pub fn is_medelegated(&self, cause: u32) -> (r: bool)
        requires
            self.wf(),
            cause < 32,
        ensures
            r == bit_set(self@[MEDELEG as int], cause),
    {
        (self.csrs[MEDELEG] >> cause) & 1 == 1
    }

    /// Whether interrupt cause `cause` is delegated to supervisor mode:
    /// bit `cause & 0x1f` of mideleg.
    pub fn is_midelegated(&self, cause: u32) -> (r: bool)
        requires
            self.wf(),
        ensures
            r == bit_set(self@[MIDELEG as int], cause & 0x1f),
    {
        let i = cause & 0x1f;
        proof {
            assert(cause & 0x1f < 32) by (bit_vector);
        }
        (self.csrs[MIDELEG] >> i) & 1 == 1
    }
}

} // verus!
