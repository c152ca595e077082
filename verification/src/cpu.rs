//! The hart: architectural state and the fetch-decode-execute loop.

use vstd::prelude::*;
use vstd::pervasive::VecAdditionalExecFns;
use vstd::wrapping::u32_specs;

use crate::alu::{
    div_s, div_spec, divu, divu_spec, lt_signed, lt_signed_spec, mulh, mulh_spec, mulhsu,
    mulhsu_spec, mulhu, mulhu_spec, rem_s, rem_spec, remu, remu_spec, sext16, sext16_spec, sext8,
    sext8_spec, sra32, sra32_spec,
};

use crate::bus::{bus_access_ok, Bus};
use crate::csr::{bit_set, csr_read_spec, csr_write_spec, Csr};
use crate::csr::{
    MASK_MEIP, MASK_MIE, MASK_MPIE, MASK_MPP, MASK_MSIP, MASK_MTIP, MASK_SEIP, MASK_SIE,
    MASK_SPIE, MASK_SPP, MASK_SSIP, MASK_SSTATUS, MASK_STIP,
};
use crate::csr::{MCAUSE, MEDELEG, MEPC, MIDELEG, MIE, MIP, MSTATUS, MTVAL, MTVEC};
use crate::csr::{SCAUSE, SEPC, SSTATUS, STVAL, STVEC};
use crate::dram::{read_le, write_le};
use crate::exceptions::Exception;
use crate::interrupt::Interrupt;
use crate::param::{DRAM_BASE, DRAM_END, DRAM_SIZE};

verus! {

pub const MACHINE: u32 = 3;

pub const SUPERVISOR: u32 = 1;

pub const USER: u32 = 0;

/// The architectural state of the hart, as contracts see it.
pub struct CpuView {
    pub pc: u32,
    pub regs: Seq<u32>,
    pub csrs: Seq<u32>,
    pub mem: Seq<u8>,
    pub mode: u32,
}

/// The invariant that holds between retired instructions: register x0
/// reads as zero, the privilege mode is one of the three supported
/// levels, and the register files have their architectural sizes.
pub open spec fn cpu_inv(s: CpuView) -> bool {
    &&& s.regs.len() == 32
    &&& s.regs[0] == 0
    &&& (s.mode == USER || s.mode == SUPERVISOR || s.mode == MACHINE)
    &&& s.csrs.len() == 4096
    &&& s.mem.len() == DRAM_SIZE
}

/// The register file after writing `v` to register `rd`: a write to
/// x0 is discarded, so x0 always reads as zero.
pub open spec fn write_reg_spec(regs: Seq<u32>, rd: int, v: u32) -> Seq<u32> {
    if rd == 0 {
        regs
    } else {
        regs.update(rd, v)
    }
}

pub struct Cpu {
    pc: u32,
    regs: Vec<u32>,
    bus: Bus,
    csr: Csr,
    mode: u32,
}

impl View for Cpu {
    type V = CpuView;

    closed spec fn view(&self) -> CpuView {
        CpuView {
            pc: self.pc,
            regs: self.regs@,
            csrs: self.csr@,
            mem: self.bus@,
            mode: self.mode,
        }
    }
}

impl Cpu {
    pub open spec fn wf(&self) -> bool {
        cpu_inv(self@)
    }

    /// A hart at its reset state: pc at the start of DRAM, stack pointer
    /// at the end of DRAM, every other register, every CSR and every
    /// memory byte zero, privilege mode MACHINE.
    pub fn new() -> (r: Cpu)
        ensures
            r.wf(),
            r@.pc == DRAM_BASE,
            r@.mode == MACHINE,
            r@.regs == Seq::new(32, |i: int| if i == 2 { DRAM_END } else { 0u32 }),
            forall|i: int| 0 <= i < 4096 ==> r@.csrs[i] == 0u32,
            forall|i: int| 0 <= i < DRAM_SIZE ==> r@.mem[i] == 0u8,
    {
        let mut regs: Vec<u32> = vec![0u32; 32];
        regs.set(2, DRAM_END);
        let r = Cpu { pc: DRAM_BASE, regs, bus: Bus::new(), csr: Csr::new(), mode: MACHINE };
        proof {
            assert(r@.regs =~= Seq::new(32, |i: int| if i == 2 { DRAM_END } else { 0u32 }));
        }
        r
    }

    /// Clears every register, then restores the reset pc and stack
    /// pointer. Memory, CSRs and the privilege mode are untouched.
    pub fn reset(&mut self)
        requires
            old(self).wf(),
        ensures
            final(self).wf(),
            final(self)@.pc == DRAM_BASE,
            final(self)@.regs == Seq::new(32, |i: int| if i == 2 { DRAM_END } else { 0u32 }),
            final(self)@.csrs == old(self)@.csrs,
            final(self)@.mem == old(self)@.mem,
            final(self)@.mode == old(self)@.mode,
    {
        let mut i: usize = 0;
        while i < 32
            invariant
                i <= 32,
                self.regs@.len() == 32,
                forall|k: int| 0 <= k < i ==> self.regs@[k] == 0u32,
                self.bus@ == old(self)@.mem,
                self.csr@ == old(self)@.csrs,
                self.mode == old(self)@.mode,
                self.bus.wf(),
                self.csr.wf(),
            decreases 32 - i,
        {
            self.regs.set(i, 0);
            i = i + 1;
        }
        self.pc = DRAM_BASE;
        self.regs.set(2, DRAM_END);
        proof {
            assert(self@.regs =~= Seq::new(32, |i: int| if i == 2 { DRAM_END } else { 0u32 }));
        }
    }

    /// Loads a binary image at the start of DRAM.
    pub fn load_binary(&mut self, image: &Vec<u8>) -> (r: Result<(), Exception>)
        requires
            old(self).wf(),
        ensures
            final(self).wf(),
            r == Ok::<(), Exception>(()),
            forall|i: int|
                0 <= i < DRAM_SIZE ==> final(self)@.mem[i] == (if i < image@.len() {
                    image@[i]
                } else {
                    0u8
                }),
            final(self)@.pc == old(self)@.pc,
            final(self)@.regs == old(self)@.regs,
            final(self)@.csrs == old(self)@.csrs,
            final(self)@.mode == old(self)@.mode,
    {
        self.bus.load_binary(image)
    }

    /// The value of register `i`.
    pub fn read_reg(&self, i: usize) -> (r: u32)
        requires
            self.wf(),
            i < 32,
        ensures
            r == self@.regs[i as int],
    {
        self.regs[i]
    }

    /// Writes register `i`; a write to x0 is discarded.
    pub fn write_reg(&mut self, i: usize, v: u32)
        requires
            old(self).wf(),
            i < 32,
        ensures
            final(self).wf(),
            final(self)@ == (CpuView { regs: write_reg_spec(old(self)@.regs, i as int, v), ..old(self)@ }),
    {
        if i != 0 {
            self.regs.set(i, v);
        }
    }

    /// The current program counter.
    pub fn get_pc(&self) -> (r: u32)
        ensures
            r == self@.pc,
    {
        self.pc
    }

    /// The current privilege mode.
    pub fn get_mode(&self) -> (r: u32)
        ensures
            r == self@.mode,
    {
        self.mode
    }

    /// Reads the CSR at `addr` with the supervisor-view aliasing rules.
    pub fn csr_load(&self, addr: usize) -> (r: Result<u32, Exception>)
        requires
            self.wf(),
        ensures
            addr < 4096 ==> r == Ok::<u32, Exception>(csr_read_spec(self@.csrs, addr as int)),
            addr >= 4096 ==> r == Err::<u32, Exception>(Exception::IllegalInstruction(addr as u32)),
    {
        self.csr.load(addr)
    }

    /// Writes the CSR at `addr` with the supervisor-view aliasing rules.
    pub fn csr_store(&mut self, addr: usize, value: u32) -> (r: Result<(), Exception>)
        requires
            old(self).wf(),
        ensures
            final(self).wf(),
            addr < 4096 ==> r == Ok::<(), Exception>(()) && final(self)@ == (CpuView {
                csrs: csr_write_spec(old(self)@.csrs, addr as int, value),
                ..old(self)@
            }),
            addr >= 4096 ==> r == Err::<(), Exception>(Exception::IllegalInstruction(addr as u32))
                && final(self)@ == old(self)@,
    {
        self.csr.store(addr, value)
    }

    /// Fetches the 32-bit instruction word at the current pc.
    pub fn fetch(&self) -> (r: Result<u32, Exception>)
        requires
            self.wf(),
        ensures
            bus_access_ok(self@.pc, 32) ==> r == Ok::<u32, Exception>(
                read_le(self@.mem, self@.pc - DRAM_BASE, 32),
            ),
            !bus_access_ok(self@.pc, 32) ==> r == Err::<u32, Exception>(
                Exception::LoadAccessFault(self@.pc),
            ),
    {
        self.bus.load(self.pc, 32)
    }

    /// Loads `size` bits at physical address `addr` through the bus.
    pub fn load(&self, addr: u32, size: u32) -> (r: Result<u32, Exception>)
        requires
            self.wf(),
        ensures
            bus_access_ok(addr, size) ==> r == Ok::<u32, Exception>(
                read_le(self@.mem, addr - DRAM_BASE, size),
            ),
            !bus_access_ok(addr, size) ==> r == Err::<u32, Exception>(
                Exception::LoadAccessFault(addr),
            ),
    {
        self.bus.load(addr, size)
    }

    /// Stores `size` bits of `value` at physical address `addr` through
    /// the bus.
    pub fn store(&mut self, addr: u32, size: u32, value: u32) -> (r: Result<(), Exception>)
        requires
            old(self).wf(),
        ensures
            final(self).wf(),
            bus_access_ok(addr, size) ==> r == Ok::<(), Exception>(()) && final(self)@ == (CpuView {
                mem: write_le(old(self)@.mem, addr - DRAM_BASE, size, value),
                ..old(self)@
            }),
            !bus_access_ok(addr, size) ==> r == Err::<(), Exception>(
                Exception::StoreAMOAccessFault(addr),
            ) && final(self)@ == old(self)@,
    {
        self.bus.store(addr, size, value)
    }

    /// The pc of the next sequential instruction.
    pub fn update_pc(&mut self) -> (r: Result<u32, Exception>)
        requires
            old(self).wf(),
            old(self)@.pc + 4 <= 0xffff_ffff,
        ensures
            *final(self) == *old(self),
            r == Ok::<u32, Exception>((old(self)@.pc + 4) as u32),
    {
        Ok(self.pc + 4)
    }
}

// ---------------------------------------------------------------------
// Instruction decoding.
// ---------------------------------------------------------------------
pub open spec fn opcode_of(inst: u32) -> u32 {
    inst & 0x7f
}

pub open spec fn rd_of(inst: u32) -> u32 {
    (inst >> 7) & 0x1f
}

pub open spec fn funct3_of(inst: u32) -> u32 {
    (inst >> 12) & 0x7
}

pub open spec fn rs1_of(inst: u32) -> u32 {
    (inst >> 15) & 0x1f
}

pub open spec fn rs2_of(inst: u32) -> u32 {
    (inst >> 20) & 0x1f
}

pub open spec fn funct7_of(inst: u32) -> u32 {
    (inst >> 25) & 0x7f
}

/// The CSR address field: the top twelve bits of the instruction.
pub open spec fn csr_addr_of(inst: u32) -> u32 {
    inst >> 20
}

/// The sign-extended I-type immediate, bits 31:20.
pub open spec fn imm_i(inst: u32) -> u32 {
    if inst & 0x8000_0000 != 0 {
        (inst >> 20) | 0xffff_f000
    } else {
        inst >> 20
    }
}

/// The sign-extended S-type immediate, bits 31:25 and 11:7.
pub open spec fn imm_s(inst: u32) -> u32 {
    let low = ((inst >> 25) << 5) | ((inst >> 7) & 0x1f);
    if inst & 0x8000_0000 != 0 {
        low | 0xffff_f000
    } else {
        low
    }
}

/// The sign-extended B-type immediate; bit 0 is always zero.
pub open spec fn imm_b(inst: u32) -> u32 {
    let low = (((inst >> 31) & 1) << 12) | (((inst >> 7) & 1) << 11) | (((inst >> 25) & 0x3f) << 5)
        | (((inst >> 8) & 0xf) << 1);
    if inst & 0x8000_0000 != 0 {
        low | 0xffff_e000
    } else {
        low
    }
}

/// The U-type immediate, already shifted into bits 31:12.
pub open spec fn imm_u(inst: u32) -> u32 {
    inst & 0xffff_f000
}

/// The sign-extended J-type immediate; bit 0 is always zero.
pub open spec fn imm_j(inst: u32) -> u32 {
    let low = (((inst >> 31) & 1) << 20) | (inst & 0xff000) | (((inst >> 20) & 1) << 11) | (((inst
        >> 21) & 0x3ff) << 1);
    if inst & 0x8000_0000 != 0 {
        low | 0xffe0_0000
    } else {
        low
    }
}

/// Bounds of the decoded fields, so they can index the register files.
proof fn lemma_decode_bounds(x: u32)
    by (bit_vector)
    ensures
        (x >> 7) & 0x1f < 32,
        (x >> 15) & 0x1f < 32,
        (x >> 20) & 0x1f < 32,
        x >> 20 < 4096,
        x & 0x1f < 32,
        (x >> 11) & 3 < 4,
        (x >> 8) & 1 < 2,
        (x >> 5) & 1 < 2,
        (x >> 7) & 1 < 2,
        (x >> 1) & 1 < 2,
        (x >> 3) & 1 < 2,
{
}

fn decode_rd(inst: u32) -> (r: usize)
    ensures
        r == rd_of(inst) as usize,
        r < 32,
{
    proof {
        lemma_decode_bounds(inst);
    }
    ((inst >> 7) & 0x1f) as usize
}

fn decode_rs1(inst: u32) -> (r: usize)
    ensures
        r == rs1_of(inst) as usize,
        r < 32,
{
    proof {
        lemma_decode_bounds(inst);
    }
    ((inst >> 15) & 0x1f) as usize
}

fn decode_rs2(inst: u32) -> (r: usize)
    ensures
        r == rs2_of(inst) as usize,
        r < 32,
{
    proof {
        lemma_decode_bounds(inst);
    }
    ((inst >> 20) & 0x1f) as usize
}

/// A five-bit shift amount, always below the word width.
fn shamt5(x: u32) -> (r: u32)
    ensures
        r == x & 0x1f,
        r < 32,
{
    proof {
        lemma_decode_bounds(x);
    }
    x & 0x1f
}

fn exec_imm_i(inst: u32) -> (r: u32)
    ensures
        r == imm_i(inst),
{
    if inst & 0x8000_0000 != 0 {
        (inst >> 20) | 0xffff_f000
    } else {
        inst >> 20
    }
}

fn exec_imm_s(inst: u32) -> (r: u32)
    ensures
        r == imm_s(inst),
{
    let low = ((inst >> 25) << 5) | ((inst >> 7) & 0x1f);
    if inst & 0x8000_0000 != 0 {
        low | 0xffff_f000
    } else {
        low
    }
}

fn exec_imm_b(inst: u32) -> (r: u32)
    ensures
        r == imm_b(inst),
{
    let low = (((inst >> 31) & 1) << 12) | (((inst >> 7) & 1) << 11) | (((inst >> 25) & 0x3f) << 5)
        | (((inst >> 8) & 0xf) << 1);
    if inst & 0x8000_0000 != 0 {
        low | 0xffff_e000
    } else {
        low
    }
}

fn exec_imm_j(inst: u32) -> (r: u32)
    ensures
        r == imm_j(inst),
{
    let low = (((inst >> 31) & 1) << 20) | (inst & 0xff000) | (((inst >> 20) & 1) << 11) | (((inst
        >> 21) & 0x3ff) << 1);
    if inst & 0x8000_0000 != 0 {
        low | 0xffe0_0000
    } else {
        low
    }
}

// ---------------------------------------------------------------------
// The instruction semantics: from a pre-state and an instruction word to
// the post-state and either the next pc or a raised exception.
// ---------------------------------------------------------------------
/// The pc of the next sequential instruction; meaningful while the pc
/// can still advance without wrapping.
pub open spec fn next_pc(s: CpuView) -> u32 {
    (s.pc + 4) as u32
}

/// Retires an instruction that only writes `rd` and advances to the next
/// sequential instruction.
pub open spec fn retire_rd(s: CpuView, rd: int, v: u32) -> (CpuView, Result<u32, Exception>) {
    (CpuView { regs: write_reg_spec(s.regs, rd, v), ..s }, Ok(next_pc(s)))
}

/// Raises an exception, leaving the state unchanged.
pub open spec fn raise(s: CpuView, e: Exception) -> (CpuView, Result<u32, Exception>) {
    (s, Err(e))
}

/// Loads: the effective address is rs1 plus the I-type immediate; byte
/// and halfword loads come signed or unsigned.
pub open spec fn spec_exec_load(s: CpuView, inst: u32) -> (CpuView, Result<u32, Exception>) {
    let f3 = funct3_of(inst);
    let rd = rd_of(inst) as int;
    let addr = u32_specs::wrapping_add(s.regs[rs1_of(inst) as int], imm_i(inst));
    if f3 == 0 || f3 == 1 || f3 == 2 || f3 == 4 || f3 == 5 {
        let size: u32 = if f3 == 0 || f3 == 4 {
            8
        } else if f3 == 1 || f3 == 5 {
            16
        } else {
            32
        };
        if bus_access_ok(addr, size) {
            let v = read_le(s.mem, addr - DRAM_BASE, size);
            let v2 = if f3 == 0 {
                sext8_spec(v)
            } else if f3 == 1 {
                sext16_spec(v)
            } else {
                v
            };
            retire_rd(s, rd, v2)
        } else {
            raise(s, Exception::LoadAccessFault(addr))
        }
    } else {
        raise(s, Exception::IllegalInstruction(inst))
    }
}

/// Stores: the effective address is rs1 plus the S-type immediate.
pub open spec fn spec_exec_store(s: CpuView, inst: u32) -> (CpuView, Result<u32, Exception>) {
    let f3 = funct3_of(inst);
    let addr = u32_specs::wrapping_add(s.regs[rs1_of(inst) as int], imm_s(inst));
    let b = s.regs[rs2_of(inst) as int];
    if f3 == 0 || f3 == 1 || f3 == 2 {
        let size: u32 = if f3 == 0 {
            8
        } else if f3 == 1 {
            16
        } else {
            32
        };
        if bus_access_ok(addr, size) {
            (CpuView { mem: write_le(s.mem, addr - DRAM_BASE, size, b), ..s }, Ok(next_pc(s)))
        } else {
            raise(s, Exception::StoreAMOAccessFault(addr))
        }
    } else {
        raise(s, Exception::IllegalInstruction(inst))
    }
}

/// Word atomics: read the old word at the address in rs1, store a
/// combination with rs2, and return the old word in rd. The min/max
/// variants leave memory untouched when the old value already wins.
pub open spec fn spec_exec_amo(s: CpuView, inst: u32) -> (CpuView, Result<u32, Exception>) {
    let f5 = funct7_of(inst) >> 2;
    let rd = rd_of(inst) as int;
    let addr = s.regs[rs1_of(inst) as int];
    let b = s.regs[rs2_of(inst) as int];
    if !(f5 == 0x00 || f5 == 0x01 || f5 == 0x04 || f5 == 0x08 || f5 == 0x0c || f5 == 0x10 || f5
        == 0x14 || f5 == 0x18 || f5 == 0x1c) {
        raise(s, Exception::IllegalInstruction(inst))
    } else if !bus_access_ok(addr, 32) {
        raise(s, Exception::LoadAccessFault(addr))
    } else {
        let t = read_le(s.mem, addr - DRAM_BASE, 32);
        let stored: Option<u32> = if f5 == 0x00 {
            Some(u32_specs::wrapping_add(t, b))
        } else if f5 == 0x01 {
            Some(b)
        } else if f5 == 0x04 {
            Some(t ^ b)
        } else if f5 == 0x08 {
            Some(t | b)
        } else if f5 == 0x0c {
            Some(t & b)
        } else if f5 == 0x10 {
            if lt_signed_spec(b, t) {
                Some(b)
            } else {
                None
            }
        } else if f5 == 0x14 {
            if lt_signed_spec(t, b) {
                Some(b)
            } else {
                None
            }
        } else if f5 == 0x18 {
            if b < t {
                Some(b)
            } else {
                None
            }
        } else {
            if b > t {
                Some(b)
            } else {
                None
            }
        };
        let mem2 = match stored {
            Some(v) => write_le(s.mem, addr - DRAM_BASE, 32, v),
            None => s.mem,
        };
        (CpuView { mem: mem2, regs: write_reg_spec(s.regs, rd, t), ..s }, Ok(next_pc(s)))
    }
}

/// LUI: load the U-type immediate into rd.
pub open spec fn spec_exec_lui(s: CpuView, inst: u32) -> (CpuView, Result<u32, Exception>) {
    retire_rd(s, rd_of(inst) as int, imm_u(inst))
}

/// AUIPC: rd is the pc plus the U-type immediate.
pub open spec fn spec_exec_auipc(s: CpuView, inst: u32) -> (CpuView, Result<u32, Exception>) {
    retire_rd(s, rd_of(inst) as int, u32_specs::wrapping_add(s.pc, imm_u(inst)))
}

/// JAL: rd takes the return address and the pc jumps relative.
pub open spec fn spec_exec_jal(s: CpuView, inst: u32) -> (CpuView, Result<u32, Exception>) {
    (
        CpuView { regs: write_reg_spec(s.regs, rd_of(inst) as int, next_pc(s)), ..s },
        Ok(u32_specs::wrapping_add(s.pc, imm_j(inst))),
    )
}

/// JALR: rd takes the return address and the pc jumps to rs1 plus the
/// immediate, with the lowest bit cleared.
pub open spec fn spec_exec_jalr(s: CpuView, inst: u32) -> (CpuView, Result<u32, Exception>) {
    let target = u32_specs::wrapping_add(s.regs[rs1_of(inst) as int], imm_i(inst)) & 0xffff_fffe;
    (CpuView { regs: write_reg_spec(s.regs, rd_of(inst) as int, next_pc(s)), ..s }, Ok(target))
}

/// FENCE: a no-op on a single sequential hart.
pub open spec fn spec_exec_fence(s: CpuView, inst: u32) -> (CpuView, Result<u32, Exception>) {
    if funct3_of(inst) == 0 {
        (s, Ok(next_pc(s)))
    } else {
        raise(s, Exception::IllegalInstruction(inst))
    }
}

/// SRET: return from a supervisor trap. Requires supervisor privilege;
/// restores the mode from SPP and the interrupt enable from SPIE, sets
/// SPIE and clears SPP, and jumps to sepc with the low bits cleared.
pub open spec fn spec_exec_sret(s: CpuView, inst: u32) -> (CpuView, Result<u32, Exception>) {
    if s.mode == SUPERVISOR || s.mode == MACHINE {
        let sstatus = csr_read_spec(s.csrs, SSTATUS as int);
        let spp = (sstatus >> 8) & 1;
        let spie = (sstatus >> 5) & 1;
        let newpc = csr_read_spec(s.csrs, SEPC as int) & 0xffff_fffc;
        let ns = (sstatus & !(MASK_SIE | MASK_SPIE | MASK_SPP)) | (spie << 1) | MASK_SPIE;
        (CpuView { csrs: csr_write_spec(s.csrs, SSTATUS as int, ns), mode: spp, ..s }, Ok(newpc))
    } else {
        raise(s, Exception::IllegalInstruction(inst))
    }
}

/// MRET: return from a machine trap. Requires machine privilege;
/// restores the mode from MPP and the interrupt enable from MPIE, sets
/// MPIE and clears MPP, and jumps to mepc with the low bits cleared.
/// MPP can hold the unsupported encoding 2 only through a direct CSR
/// write; the return path reads it as user mode so the privilege mode
/// stays one of the supported levels.
pub open spec fn spec_exec_mret(s: CpuView, inst: u32) -> (CpuView, Result<u32, Exception>) {
    if s.mode == MACHINE {
        let mstatus = csr_read_spec(s.csrs, MSTATUS as int);
        let mpp = (mstatus >> 11) & 3;
        let mpie = (mstatus >> 7) & 1;
        let newpc = csr_read_spec(s.csrs, MEPC as int) & 0xffff_fffc;
        let ns = (mstatus & !(MASK_MIE | MASK_MPIE | MASK_MPP)) | (mpie << 3) | MASK_MPIE;
        let new_mode = if mpp == 2 {
            USER
        } else {
            mpp
        };
        (
            CpuView { csrs: csr_write_spec(s.csrs, MSTATUS as int, ns), mode: new_mode, ..s },
            Ok(newpc),
        )
    } else {
        raise(s, Exception::IllegalInstruction(inst))
    }
}

/// SYSTEM: environment calls, trap returns, and the CSR read-modify-
/// write family. CSRRS/CSRRC and their immediate forms leave the CSR
/// untouched when the source is x0 or the immediate is zero, preserving
/// read-only CSR semantics.
pub open spec fn spec_exec_system(s: CpuView, inst: u32) -> (CpuView, Result<u32, Exception>) {
    let f3 = funct3_of(inst);
    let ca = csr_addr_of(inst) as int;
    let rd = rd_of(inst) as int;
    let rs1 = rs1_of(inst) as int;
    let zimm = rs1_of(inst);
    if f3 == 0 {
        let r2 = rs2_of(inst);
        let f7 = funct7_of(inst);
        if r2 == 0 && f7 == 0 {
            if s.mode == MACHINE {
                raise(s, Exception::EnvironmentCallFromMMode(s.pc))
            } else if s.mode == SUPERVISOR {
                raise(s, Exception::EnvironmentCallFromSMode(s.pc))
            } else {
                raise(s, Exception::EnvironmentCallFromUMode(s.pc))
            }
        } else if r2 == 1 && f7 == 0 {
            raise(s, Exception::Breakpoint(s.pc))
        } else if r2 == 2 && f7 == 0x08 {
            spec_exec_sret(s, inst)
        } else if r2 == 2 && f7 == 0x18 {
            spec_exec_mret(s, inst)
        } else if f7 == 0x09 {
            (s, Ok(next_pc(s)))  // sfence.vma: a no-op without address translation
        } else {
            raise(s, Exception::IllegalInstruction(inst))
        }
    } else if f3 == 1 {
        // csrrw: rd takes the old CSR, the CSR takes rs1.
        let t = csr_read_spec(s.csrs, ca);
        let regs2 = write_reg_spec(s.regs, rd, t);
        let csrs2 = csr_write_spec(s.csrs, ca, regs2[rs1]);
        (CpuView { regs: regs2, csrs: csrs2, ..s }, Ok(next_pc(s)))
    } else if f3 == 2 {
        // csrrs: set the bits of rs1.
        let t = csr_read_spec(s.csrs, ca);
        let regs2 = write_reg_spec(s.regs, rd, t);
        let csrs2 = if rs1 == 0 {
            s.csrs
        } else {
            csr_write_spec(s.csrs, ca, regs2[rs1] | t)
        };
        (CpuView { regs: regs2, csrs: csrs2, ..s }, Ok(next_pc(s)))
    } else if f3 == 3 {
        // csrrc: clear the bits of rs1.
        let t = csr_read_spec(s.csrs, ca);
        let regs2 = write_reg_spec(s.regs, rd, t);
        let csrs2 = if rs1 == 0 {
            s.csrs
        } else {
            csr_write_spec(s.csrs, ca, !regs2[rs1] & t)
        };
        (CpuView { regs: regs2, csrs: csrs2, ..s }, Ok(next_pc(s)))
    } else if f3 == 5 {
        // csrrwi: the CSR takes the zero-extended immediate.
        let t = csr_read_spec(s.csrs, ca);
        let regs2 = write_reg_spec(s.regs, rd, t);
        let csrs2 = csr_write_spec(s.csrs, ca, zimm);
        (CpuView { regs: regs2, csrs: csrs2, ..s }, Ok(next_pc(s)))
    } else if f3 == 6 {
        // csrrsi
        let t = csr_read_spec(s.csrs, ca);
        let regs2 = write_reg_spec(s.regs, rd, t);
        let csrs2 = if zimm == 0 {
            s.csrs
        } else {
            csr_write_spec(s.csrs, ca, zimm | t)
        };
        (CpuView { regs: regs2, csrs: csrs2, ..s }, Ok(next_pc(s)))
    } else if f3 == 7 {
        // csrrci
        let t = csr_read_spec(s.csrs, ca);
        let regs2 = write_reg_spec(s.regs, rd, t);
        let csrs2 = if zimm == 0 {
            s.csrs
        } else {
            csr_write_spec(s.csrs, ca, !zimm & t)
        };
        (CpuView { regs: regs2, csrs: csrs2, ..s }, Ok(next_pc(s)))
    } else {
        raise(s, Exception::IllegalInstruction(inst))
    }
}

/// One decoded and executed instruction: the post-state, and either the
/// pc of the next instruction or the exception raised. An exception
/// leaves the state unchanged.
pub open spec fn spec_execute(s: CpuView, inst: u32) -> (CpuView, Result<u32, Exception>) {
    let op = opcode_of(inst);
    if op == 0x03 {
        spec_exec_load(s, inst)
    } else if op == 0x0f {
        spec_exec_fence(s, inst)
    } else if op == 0x13 {
        spec_exec_op_imm(s, inst)
    } else if op == 0x17 {
        spec_exec_auipc(s, inst)
    } else if op == 0x1b {
        spec_exec_op_imm32(s, inst)
    } else if op == 0x23 {
        spec_exec_store(s, inst)
    } else if op == 0x2f {
        spec_exec_amo(s, inst)
    } else if op == 0x33 {
        spec_exec_op(s, inst)
    } else if op == 0x37 {
        spec_exec_lui(s, inst)
    } else if op == 0x63 {
        spec_exec_branch(s, inst)
    } else if op == 0x67 {
        spec_exec_jalr(s, inst)
    } else if op == 0x6f {
        spec_exec_jal(s, inst)
    } else if op == 0x73 {
        spec_exec_system(s, inst)
    } else {
        raise(s, Exception::IllegalInstruction(inst))
    }
}

// ---------------------------------------------------------------------
// Trap delivery.
// ---------------------------------------------------------------------
/// The status register after a trap is taken at privilege `prior_mode`:
/// the previous-enable field takes the current enable, the enable is
/// cleared, and the previous-privilege field records `prior_mode`. The
/// supervisor variant is written through the sstatus view, the machine
/// variant through mstatus directly.
pub open spec fn spec_status_after_trap(status: u32, sup: bool, prior_mode: u32) -> u32 {
    if sup {
        (status & !(MASK_SPIE | MASK_SIE | MASK_SPP)) | (((status >> 1) & 1) << 5) | (prior_mode
            << 8)
    } else {
        (status & !(MASK_MPIE | MASK_MIE | MASK_MPP)) | (((status >> 3) & 1) << 7) | (prior_mode
            << 11)
    }
}

/// Whether an exception raised at privilege `mode` is handled in
/// supervisor mode: only from user or supervisor mode, and only when
/// medeleg delegates its cause.
pub open spec fn spec_exception_delegated(s: CpuView, e: Exception) -> bool {
    s.mode <= 1 && bit_set(s.csrs[MEDELEG as int], e.spec_code())
}

/// Delivery of a synchronous exception: the cause, faulting pc and
/// payload are recorded in the target level's cause/epc/tval registers,
/// the status register saves the interrupt-enable and prior privilege,
/// the mode switches to the target level, and the pc is redirected to
/// the target trap vector.
pub open spec fn spec_handle_exception(s: CpuView, e: Exception) -> CpuView {
    if spec_exception_delegated(s, e) {
        let t1 = csr_write_spec(s.csrs, SCAUSE as int, e.spec_code());
        let t2 = csr_write_spec(t1, SEPC as int, s.pc);
        let tvec = csr_read_spec(t2, STVEC as int);
        let t3 = csr_write_spec(t2, STVAL as int, e.spec_value());
        let status = csr_read_spec(t3, SSTATUS as int);
        let t4 = csr_write_spec(t3, SSTATUS as int, spec_status_after_trap(status, true, s.mode));
        CpuView { pc: tvec, csrs: t4, mode: SUPERVISOR, ..s }
    } else {
        let t1 = csr_write_spec(s.csrs, MCAUSE as int, e.spec_code());
        let t2 = csr_write_spec(t1, MEPC as int, s.pc);
        let tvec = csr_read_spec(t2, MTVEC as int);
        let t3 = csr_write_spec(t2, MTVAL as int, e.spec_value());
        let status = csr_read_spec(t3, MSTATUS as int);
        let t4 = csr_write_spec(t3, MSTATUS as int, spec_status_after_trap(status, false, s.mode));
        CpuView { pc: tvec, csrs: t4, mode: MACHINE, ..s }
    }
}

/// The interrupt delivered between instructions, if any: pending and
/// enabled sources gated by the global enable of the current mode, in
/// the fixed machine-before-supervisor priority order.
pub open spec fn spec_pending_interrupt(s: CpuView) -> Option<Interrupt> {
    let mstatus = csr_read_spec(s.csrs, MSTATUS as int);
    let sstatus = csr_read_spec(s.csrs, SSTATUS as int);
    if s.mode == MACHINE && mstatus & MASK_MIE == 0 {
        None
    } else if s.mode == SUPERVISOR && sstatus & MASK_SIE == 0 {
        None
    } else {
        let pending = csr_read_spec(s.csrs, MIE as int) & csr_read_spec(s.csrs, MIP as int);
        if pending & MASK_MEIP != 0 {
            Some(Interrupt::MachineExternalInterrupt)
        } else if pending & MASK_MSIP != 0 {
            Some(Interrupt::MachineSoftwareInterrupt)
        } else if pending & MASK_MTIP != 0 {
            Some(Interrupt::MachineTimerInterrupt)
        } else if pending & MASK_SEIP != 0 {
            Some(Interrupt::SupervisorExternalInterrupt)
        } else if pending & MASK_SSIP != 0 {
            Some(Interrupt::SupervisorSoftwareInterrupt)
        } else if pending & MASK_STIP != 0 {
            Some(Interrupt::SupervisorTimerInterrupt)
        } else {
            None
        }
    }
}

/// The state after the pending-interrupt poll: when a source is chosen
/// its bit in mip is cleared, level-sensitive sources being re-asserted
/// by their peripherals.
pub open spec fn spec_take_interrupt(s: CpuView) -> CpuView {
    match spec_pending_interrupt(s) {
        Some(i) => CpuView {
            csrs: csr_write_spec(
                s.csrs,
                MIP as int,
                csr_read_spec(s.csrs, MIP as int) & !i.spec_pending_mask(),
            ),
            ..s
        },
        None => s,
    }
}

/// Whether interrupt `i` is handled in supervisor mode.
pub open spec fn spec_interrupt_delegated(s: CpuView, i: Interrupt) -> bool {
    s.mode <= 1 && bit_set(s.csrs[MIDELEG as int], i.spec_code() & 0x1f)
}

/// The trap vector target for an interrupt: vectored entry lands at
/// base plus four times the cause when the low two bits of the vector
/// register are one, direct entry at the base itself.
pub open spec fn spec_interrupt_target(tvec: u32, cause: u32) -> u32 {
    if tvec & 3 == 1 {
        u32_specs::wrapping_add(tvec & 0xffff_fffc, (4 * (cause & 0x1f)) as u32)
    } else {
        tvec & 0xffff_fffc
    }
}

/// Delivery of an interrupt: like exception delivery, but the recorded
/// cause has the asynchronous-origin bit, the payload register is
/// cleared, and vectored trap vectors are honoured.
pub open spec fn spec_handle_interrupt(s: CpuView, i: Interrupt) -> CpuView {
    let code = i.spec_code();
    if spec_interrupt_delegated(s, i) {
        let t1 = csr_write_spec(s.csrs, SEPC as int, s.pc);
        let tvec = csr_read_spec(t1, STVEC as int);
        let newpc = spec_interrupt_target(tvec, code);
        let t2 = csr_write_spec(t1, SCAUSE as int, code);
        let t3 = csr_write_spec(t2, STVAL as int, 0);
        let status = csr_read_spec(t3, SSTATUS as int);
        let t4 = csr_write_spec(t3, SSTATUS as int, spec_status_after_trap(status, true, s.mode));
        CpuView { pc: newpc, csrs: t4, mode: SUPERVISOR, ..s }
    } else {
        let t1 = csr_write_spec(s.csrs, MEPC as int, s.pc);
        let tvec = csr_read_spec(t1, MTVEC as int);
        let newpc = spec_interrupt_target(tvec, code);
        let t2 = csr_write_spec(t1, MCAUSE as int, code);
        let t3 = csr_write_spec(t2, MTVAL as int, 0);
        let status = csr_read_spec(t3, MSTATUS as int);
        let t4 = csr_write_spec(t3, MSTATUS as int, spec_status_after_trap(status, false, s.mode));
        CpuView { pc: newpc, csrs: t4, mode: MACHINE, ..s }
    }
}

/// One full interpreter step: fetch, execute, commit the new pc, then
/// poll for an interrupt. The result reports the exception raised
/// during fetch or execute, if any, after it has been delivered; the
/// caller decides whether a fatal one ends the run.
pub open spec fn spec_step(s: CpuView) -> (CpuView, Result<(), Exception>) {
    if !bus_access_ok(s.pc, 32) {
        (
            spec_handle_exception(s, Exception::LoadAccessFault(s.pc)),
            Err(Exception::LoadAccessFault(s.pc)),
        )
    } else {
        let inst = read_le(s.mem, s.pc - DRAM_BASE, 32);
        let ex = spec_execute(s, inst);
        match ex.1 {
            Ok(newpc) => {
                let s2 = CpuView { pc: newpc, ..ex.0 };
                match spec_pending_interrupt(s2) {
                    Some(i) => (spec_handle_interrupt(spec_take_interrupt(s2), i), Ok(())),
                    None => (s2, Ok(())),
                }
            },
            Err(e) => (spec_handle_exception(ex.0, e), Err(e)),
        }
    }
}

/// After delivering any synchronous trap, the target status register
/// records the prior interrupt enable in xPIE, has xIE cleared, records
/// the prior privilege mode in xPP, and the pc is the target trap
/// vector, while the target cause/epc/tval registers hold the cause,
/// the faulting pc and the payload.
pub proof fn lemma_trap_entry(s: CpuView, e: Exception)
    requires
        cpu_inv(s),
    ensures
        ({
            let s2 = spec_handle_exception(s, e);
            let m0 = s.csrs[MSTATUS as int];
            let m2 = s2.csrs[MSTATUS as int];
            if spec_exception_delegated(s, e) {
                &&& (m2 >> 5) & 1 == (m0 >> 1) & 1
                &&& m2 & MASK_SIE == 0
                &&& (m2 >> 8) & 1 == s.mode
                &&& s2.pc == s.csrs[STVEC as int]
                &&& s2.mode == SUPERVISOR
                &&& s2.csrs[SCAUSE as int] == e.spec_code()
                &&& s2.csrs[SEPC as int] == s.pc
                &&& s2.csrs[STVAL as int] == e.spec_value()
            } else {
                &&& (m2 >> 7) & 1 == (m0 >> 3) & 1
                &&& m2 & MASK_MIE == 0
                &&& (m2 >> 11) & 3 == s.mode
                &&& s2.pc == s.csrs[MTVEC as int]
                &&& s2.mode == MACHINE
                &&& s2.csrs[MCAUSE as int] == e.spec_code()
                &&& s2.csrs[MEPC as int] == s.pc
                &&& s2.csrs[MTVAL as int] == e.spec_value()
            }
        }),
{
    let m = s.csrs[MSTATUS as int];
    let mode = s.mode;
    if spec_exception_delegated(s, e) {
        assert({
            let status = m & MASK_SSTATUS;
            let ns = (status & !(MASK_SPIE | MASK_SIE | MASK_SPP)) | (((status >> 1) & 1) << 5) | (
            mode << 8);
            let stored = (m & !MASK_SSTATUS) | (ns & MASK_SSTATUS);
            (stored >> 5) & 1 == (m >> 1) & 1 && stored & MASK_SIE == 0 && (stored >> 8) & 1
                == mode
        }) by (bit_vector)
            requires
                mode <= 1,
        ;
    } else {
        assert({
            let ns = (m & !(MASK_MPIE | MASK_MIE | MASK_MPP)) | (((m >> 3) & 1) << 7) | (mode
                << 11);
            (ns >> 7) & 1 == (m >> 3) & 1 && ns & MASK_MIE == 0 && (ns >> 11) & 3 == mode
        }) by (bit_vector)
            requires
                mode <= 3,
        ;
    }
}

/// The same bookkeeping holds for interrupt delivery, with the pc at
/// the effective trap vector: the vectored target when the vector
/// register selects vectored mode, its base otherwise.
pub proof fn lemma_interrupt_entry(s: CpuView, i: Interrupt)
    requires
        cpu_inv(s),
    ensures
        ({
            let s2 = spec_handle_interrupt(s, i);
            let m0 = s.csrs[MSTATUS as int];
            let m2 = s2.csrs[MSTATUS as int];
            if spec_interrupt_delegated(s, i) {
                &&& (m2 >> 5) & 1 == (m0 >> 1) & 1
                &&& m2 & MASK_SIE == 0
                &&& (m2 >> 8) & 1 == s.mode
                &&& s2.pc == spec_interrupt_target(s.csrs[STVEC as int], i.spec_code())
                &&& s2.mode == SUPERVISOR
                &&& s2.csrs[SCAUSE as int] == i.spec_code()
                &&& s2.csrs[SEPC as int] == s.pc
                &&& s2.csrs[STVAL as int] == 0
            } else {
                &&& (m2 >> 7) & 1 == (m0 >> 3) & 1
                &&& m2 & MASK_MIE == 0
                &&& (m2 >> 11) & 3 == s.mode
                &&& s2.pc == spec_interrupt_target(s.csrs[MTVEC as int], i.spec_code())
                &&& s2.mode == MACHINE
                &&& s2.csrs[MCAUSE as int] == i.spec_code()
                &&& s2.csrs[MEPC as int] == s.pc
                &&& s2.csrs[MTVAL as int] == 0
            }
        }),
{
    let m = s.csrs[MSTATUS as int];
    let mode = s.mode;
    if spec_interrupt_delegated(s, i) {
        assert({
            let status = m & MASK_SSTATUS;
            let ns = (status & !(MASK_SPIE | MASK_SIE | MASK_SPP)) | (((status >> 1) & 1) << 5) | (
            mode << 8);
            let stored = (m & !MASK_SSTATUS) | (ns & MASK_SSTATUS);
            (stored >> 5) & 1 == (m >> 1) & 1 && stored & MASK_SIE == 0 && (stored >> 8) & 1
                == mode
        }) by (bit_vector)
            requires
                mode <= 1,
        ;
    } else {
        assert({
            let ns = (m & !(MASK_MPIE | MASK_MIE | MASK_MPP)) | (((m >> 3) & 1) << 7) | (mode
                << 11);
            (ns >> 7) & 1 == (m >> 3) & 1 && ns & MASK_MIE == 0 && (ns >> 11) & 3 == mode
        }) by (bit_vector)
            requires
                mode <= 3,
        ;
    }
}

/// A trap delivered to machine mode, followed immediately by MRET with
/// no intervening instruction, restores the privilege mode, the MIE
/// bit of mstatus and the pc to their pre-trap values; the pc must
/// have been four-byte aligned, since the return path clears its low
/// bits. A handler that writes mstatus or mepc in between can break
/// this round trip, though a write that happens to store the same
/// values back would not.
pub proof fn lemma_trap_mret_round_trip(s: CpuView, e: Exception, inst: u32)
    requires
        cpu_inv(s),
        !spec_exception_delegated(s, e),
        s.pc % 4 == 0,
    ensures
        ({
            let s1 = spec_handle_exception(s, e);
            let s2 = spec_exec_mret(s1, inst).0;
            &&& s2.mode == s.mode
            &&& s2.csrs[MSTATUS as int] & MASK_MIE == s.csrs[MSTATUS as int] & MASK_MIE
            &&& spec_exec_mret(s1, inst).1 == Ok::<u32, Exception>(s.pc)
        }),
{
    let m = s.csrs[MSTATUS as int];
    let mode = s.mode;
    let p = s.pc;
    assert({
        let ns = (m & !(MASK_MPIE | MASK_MIE | MASK_MPP)) | (((m >> 3) & 1) << 7) | (mode << 11);
        let ns2 = (ns & !(MASK_MIE | MASK_MPIE | MASK_MPP)) | (((ns >> 7) & 1) << 3) | MASK_MPIE;
        (ns >> 11) & 3 == mode && ns2 & MASK_MIE == m & MASK_MIE
    }) by (bit_vector)
        requires
            mode <= 3,
    ;
    assert(p & 0xffff_fffc == p) by (bit_vector)
        requires
            p % 4 == 0,
    ;
}

/// OP-IMM: register-immediate ALU operations.
pub open spec fn spec_exec_op_imm(s: CpuView, inst: u32) -> (CpuView, Result<u32, Exception>) {
    let f3 = funct3_of(inst);
    let rd = rd_of(inst) as int;
    let a = s.regs[rs1_of(inst) as int];
    let imm = imm_i(inst);
    let sh = imm & 0x1f;
    if f3 == 0 {
        retire_rd(s, rd, u32_specs::wrapping_add(a, imm))
    } else if f3 == 1 {
        retire_rd(s, rd, a << sh)
    } else if f3 == 2 {
        retire_rd(s, rd, if lt_signed_spec(a, imm) { 1u32 } else { 0u32 })
    } else if f3 == 3 {
        retire_rd(s, rd, if a < imm { 1u32 } else { 0u32 })
    } else if f3 == 4 {
        retire_rd(s, rd, a ^ imm)
    } else if f3 == 5 {
        if funct7_of(inst) >> 1 == 0x00 {
            retire_rd(s, rd, a >> sh)
        } else if funct7_of(inst) >> 1 == 0x10 {
            retire_rd(s, rd, sra32_spec(a, sh))
        } else {
            raise(s, Exception::IllegalInstruction(inst))
        }
    } else if f3 == 6 {
        retire_rd(s, rd, a | imm)
    } else {
        retire_rd(s, rd, a & imm)
    }
}

/// OP-IMM-32: kept for image compatibility; on a 32-bit hart the add
/// and shift word variants collapse to the OP-IMM semantics.
pub open spec fn spec_exec_op_imm32(s: CpuView, inst: u32) -> (CpuView, Result<u32, Exception>) {
    let f3 = funct3_of(inst);
    let rd = rd_of(inst) as int;
    let a = s.regs[rs1_of(inst) as int];
    let imm = imm_i(inst);
    let sh = imm & 0x1f;
    if f3 == 0 {
        retire_rd(s, rd, u32_specs::wrapping_add(a, imm))
    } else if f3 == 1 {
        retire_rd(s, rd, a << sh)
    } else if f3 == 5 {
        if funct7_of(inst) == 0x00 {
            retire_rd(s, rd, a >> sh)
        } else if funct7_of(inst) == 0x20 {
            retire_rd(s, rd, sra32_spec(a, sh))
        } else {
            raise(s, Exception::IllegalInstruction(inst))
        }
    } else {
        raise(s, Exception::IllegalInstruction(inst))
    }
}

/// OP: register-register ALU operations, with the multiply/divide
/// family under funct7 = 1.
pub open spec fn spec_exec_op(s: CpuView, inst: u32) -> (CpuView, Result<u32, Exception>) {
    let f3 = funct3_of(inst);
    let f7 = funct7_of(inst);
    let rd = rd_of(inst) as int;
    let a = s.regs[rs1_of(inst) as int];
    let b = s.regs[rs2_of(inst) as int];
    let sh = b & 0x1f;
    if f3 == 0 && f7 == 0x00 {
        retire_rd(s, rd, u32_specs::wrapping_add(a, b))
    } else if f3 == 0 && f7 == 0x01 {
        retire_rd(s, rd, u32_specs::wrapping_mul(a, b))
    } else if f3 == 0 && f7 == 0x20 {
        retire_rd(s, rd, u32_specs::wrapping_sub(a, b))
    } else if f3 == 1 && f7 == 0x00 {
        retire_rd(s, rd, a << sh)
    } else if f3 == 1 && f7 == 0x01 {
        retire_rd(s, rd, mulh_spec(a, b))
    } else if f3 == 2 && f7 == 0x00 {
        retire_rd(s, rd, if lt_signed_spec(a, b) { 1u32 } else { 0u32 })
    } else if f3 == 2 && f7 == 0x01 {
        retire_rd(s, rd, mulhsu_spec(a, b))
    } else if f3 == 3 && f7 == 0x00 {
        retire_rd(s, rd, if a < b { 1u32 } else { 0u32 })
    } else if f3 == 3 && f7 == 0x01 {
        retire_rd(s, rd, mulhu_spec(a, b))
    } else if f3 == 4 && f7 == 0x00 {
        retire_rd(s, rd, a ^ b)
    } else if f3 == 4 && f7 == 0x01 {
        retire_rd(s, rd, div_spec(a, b))
    } else if f3 == 5 && f7 == 0x00 {
        retire_rd(s, rd, a >> sh)
    } else if f3 == 5 && f7 == 0x01 {
        retire_rd(s, rd, divu_spec(a, b))
    } else if f3 == 5 && f7 == 0x20 {
        retire_rd(s, rd, sra32_spec(a, sh))
    } else if f3 == 6 && f7 == 0x00 {
        retire_rd(s, rd, a | b)
    } else if f3 == 6 && f7 == 0x01 {
        retire_rd(s, rd, rem_spec(a, b))
    } else if f3 == 7 && f7 == 0x00 {
        retire_rd(s, rd, a & b)
    } else if f3 == 7 && f7 == 0x01 {
        retire_rd(s, rd, remu_spec(a, b))
    } else {
        raise(s, Exception::IllegalInstruction(inst))
    }
}

/// Conditional branches: pc-relative targets, no register writes.
pub open spec fn spec_exec_branch(s: CpuView, inst: u32) -> (CpuView, Result<u32, Exception>) {
    let f3 = funct3_of(inst);
    let a = s.regs[rs1_of(inst) as int];
    let b = s.regs[rs2_of(inst) as int];
    if f3 == 2 || f3 == 3 {
        raise(s, Exception::IllegalInstruction(inst))
    } else {
        let taken = if f3 == 0 {
            a == b
        } else if f3 == 1 {
            a != b
        } else if f3 == 4 {
            lt_signed_spec(a, b)
        } else if f3 == 5 {
            !lt_signed_spec(a, b)
        } else if f3 == 6 {
            a < b
        } else {
            a >= b
        };
        (s, Ok(if taken {
            u32_specs::wrapping_add(s.pc, imm_b(inst))
        } else {
            next_pc(s)
        }))
    }
}

impl Cpu {
    fn exec_op_imm(&mut self, inst: u32) -> (r: Result<u32, Exception>)
        requires
            old(self).wf(),
            old(self)@.pc + 4 <= 0xffff_ffff,
        ensures
            final(self).wf(),
            final(self)@ == spec_exec_op_imm(old(self)@, inst).0,
            r == spec_exec_op_imm(old(self)@, inst).1,
    {
        let f3 = (inst >> 12) & 0x7;
        let rd = decode_rd(inst);
        let a = self.regs[decode_rs1(inst)];
        let imm = exec_imm_i(inst);
        let sh = shamt5(imm);
        if f3 == 0 {
            self.write_reg(rd, a.wrapping_add(imm));
        } else if f3 == 1 {
            self.write_reg(rd, a << sh);
        } else if f3 == 2 {
            self.write_reg(rd, if lt_signed(a, imm) { 1 } else { 0 });
        } else if f3 == 3 {
            self.write_reg(rd, if a < imm { 1 } else { 0 });
        } else if f3 == 4 {
            self.write_reg(rd, a ^ imm);
        } else if f3 == 5 {
            let f7 = (inst >> 25) & 0x7f;
            if f7 >> 1 == 0x00 {
                self.write_reg(rd, a >> sh);
            } else if f7 >> 1 == 0x10 {
                self.write_reg(rd, sra32(a, sh));
            } else {
                return Err(Exception::IllegalInstruction(inst));
            }
        } else if f3 == 6 {
            self.write_reg(rd, a | imm);
        } else {
            self.write_reg(rd, a & imm);
        }
        self.update_pc()
    }

    fn exec_op_imm32(&mut self, inst: u32) -> (r: Result<u32, Exception>)
        requires
            old(self).wf(),
            old(self)@.pc + 4 <= 0xffff_ffff,
        ensures
            final(self).wf(),
            final(self)@ == spec_exec_op_imm32(old(self)@, inst).0,
            r == spec_exec_op_imm32(old(self)@, inst).1,
    {
        let f3 = (inst >> 12) & 0x7;
        let rd = decode_rd(inst);
        let a = self.regs[decode_rs1(inst)];
        let imm = exec_imm_i(inst);
        let sh = shamt5(imm);
        if f3 == 0 {
            self.write_reg(rd, a.wrapping_add(imm));
        } else if f3 == 1 {
            self.write_reg(rd, a << sh);
        } else if f3 == 5 {
            let f7 = (inst >> 25) & 0x7f;
            if f7 == 0x00 {
                self.write_reg(rd, a >> sh);
            } else if f7 == 0x20 {
                self.write_reg(rd, sra32(a, sh));
            } else {
                return Err(Exception::IllegalInstruction(inst));
            }
        } else {
            return Err(Exception::IllegalInstruction(inst));
        }
        self.update_pc()
    }

    fn exec_op(&mut self, inst: u32) -> (r: Result<u32, Exception>)
        requires
            old(self).wf(),
            old(self)@.pc + 4 <= 0xffff_ffff,
        ensures
            final(self).wf(),
            final(self)@ == spec_exec_op(old(self)@, inst).0,
            r == spec_exec_op(old(self)@, inst).1,
    {
        let f3 = (inst >> 12) & 0x7;
        let f7 = (inst >> 25) & 0x7f;
        let rd = decode_rd(inst);
        let a = self.regs[decode_rs1(inst)];
        let b = self.regs[decode_rs2(inst)];
        let sh = shamt5(b);
        if f3 == 0 && f7 == 0x00 {
            self.write_reg(rd, a.wrapping_add(b));
        } else if f3 == 0 && f7 == 0x01 {
            self.write_reg(rd, a.wrapping_mul(b));
        } else if f3 == 0 && f7 == 0x20 {
            self.write_reg(rd, a.wrapping_sub(b));
        } else if f3 == 1 && f7 == 0x00 {
            self.write_reg(rd, a << sh);
        } else if f3 == 1 && f7 == 0x01 {
            self.write_reg(rd, mulh(a, b));
        } else if f3 == 2 && f7 == 0x00 {
            self.write_reg(rd, if lt_signed(a, b) { 1 } else { 0 });
        } else if f3 == 2 && f7 == 0x01 {
            self.write_reg(rd, mulhsu(a, b));
        } else if f3 == 3 && f7 == 0x00 {
            self.write_reg(rd, if a < b { 1 } else { 0 });
        } else if f3 == 3 && f7 == 0x01 {
            self.write_reg(rd, mulhu(a, b));
        } else if f3 == 4 && f7 == 0x00 {
            self.write_reg(rd, a ^ b);
        } else if f3 == 4 && f7 == 0x01 {
            self.write_reg(rd, div_s(a, b));
        } else if f3 == 5 && f7 == 0x00 {
            self.write_reg(rd, a >> sh);
        } else if f3 == 5 && f7 == 0x01 {
            self.write_reg(rd, divu(a, b));
        } else if f3 == 5 && f7 == 0x20 {
            self.write_reg(rd, sra32(a, sh));
        } else if f3 == 6 && f7 == 0x00 {
            self.write_reg(rd, a | b);
        } else if f3 == 6 && f7 == 0x01 {
            self.write_reg(rd, rem_s(a, b));
        } else if f3 == 7 && f7 == 0x00 {
            self.write_reg(rd, a & b);
        } else if f3 == 7 && f7 == 0x01 {
            self.write_reg(rd, remu(a, b));
        } else {
            return Err(Exception::IllegalInstruction(inst));
        }
        self.update_pc()
    }

    fn exec_branch(&mut self, inst: u32) -> (r: Result<u32, Exception>)
        requires
            old(self).wf(),
            old(self)@.pc + 4 <= 0xffff_ffff,
        ensures
            final(self).wf(),
            final(self)@ == spec_exec_branch(old(self)@, inst).0,
            r == spec_exec_branch(old(self)@, inst).1,
    {
        let f3 = (inst >> 12) & 0x7;
        let a = self.regs[decode_rs1(inst)];
        let b = self.regs[decode_rs2(inst)];
        if f3 == 2 || f3 == 3 {
            return Err(Exception::IllegalInstruction(inst));
        }
        let taken = if f3 == 0 {
            a == b
        } else if f3 == 1 {
            a != b
        } else if f3 == 4 {
            lt_signed(a, b)
        } else if f3 == 5 {
            !lt_signed(a, b)
        } else if f3 == 6 {
            a < b
        } else {
            a >= b
        };
        if taken {
            Ok(self.pc.wrapping_add(exec_imm_b(inst)))
        } else {
            self.update_pc()
        }
    }

    fn exec_load(&mut self, inst: u32) -> (r: Result<u32, Exception>)
        requires
            old(self).wf(),
            old(self)@.pc + 4 <= 0xffff_ffff,
        ensures
            final(self).wf(),
            final(self)@ == spec_exec_load(old(self)@, inst).0,
            r == spec_exec_load(old(self)@, inst).1,
    {
        let f3 = (inst >> 12) & 0x7;
        let rd = decode_rd(inst);
        let addr = self.regs[decode_rs1(inst)].wrapping_add(exec_imm_i(inst));
        if !(f3 == 0 || f3 == 1 || f3 == 2 || f3 == 4 || f3 == 5) {
            return Err(Exception::IllegalInstruction(inst));
        }
        let size: u32 = if f3 == 0 || f3 == 4 {
            8
        } else if f3 == 1 || f3 == 5 {
            16
        } else {
            32
        };
        let v = match self.load(addr, size) {
            Ok(v) => v,
            Err(e) => { return Err(e) },
        };
        let v2 = if f3 == 0 {
            sext8(v)
        } else if f3 == 1 {
            sext16(v)
        } else {
            v
        };
        self.write_reg(rd, v2);
        self.update_pc()
    }

    fn exec_store(&mut self, inst: u32) -> (r: Result<u32, Exception>)
        requires
            old(self).wf(),
            old(self)@.pc + 4 <= 0xffff_ffff,
        ensures
            final(self).wf(),
            final(self)@ == spec_exec_store(old(self)@, inst).0,
            r == spec_exec_store(old(self)@, inst).1,
    {
        let f3 = (inst >> 12) & 0x7;
        let addr = self.regs[decode_rs1(inst)].wrapping_add(exec_imm_s(inst));
        let b = self.regs[decode_rs2(inst)];
        if !(f3 == 0 || f3 == 1 || f3 == 2) {
            return Err(Exception::IllegalInstruction(inst));
        }
        let size: u32 = if f3 == 0 {
            8
        } else if f3 == 1 {
            16
        } else {
            32
        };
        match self.store(addr, size, b) {
            Ok(()) => self.update_pc(),
            Err(e) => Err(e),
        }
    }

    fn exec_amo(&mut self, inst: u32) -> (r: Result<u32, Exception>)
        requires
            old(self).wf(),
            old(self)@.pc + 4 <= 0xffff_ffff,
        ensures
            final(self).wf(),
            final(self)@ == spec_exec_amo(old(self)@, inst).0,
            r == spec_exec_amo(old(self)@, inst).1,
    {
        let f5 = ((inst >> 25) & 0x7f) >> 2;
        let rd = decode_rd(inst);
        let addr = self.regs[decode_rs1(inst)];
        let b = self.regs[decode_rs2(inst)];
        if !(f5 == 0x00 || f5 == 0x01 || f5 == 0x04 || f5 == 0x08 || f5 == 0x0c || f5 == 0x10 || f5
            == 0x14 || f5 == 0x18 || f5 == 0x1c) {
            return Err(Exception::IllegalInstruction(inst));
        }
        let t = match self.load(addr, 32) {
            Ok(v) => v,
            Err(e) => { return Err(e) },
        };
        if f5 == 0x00 {
            let _ = self.store(addr, 32, t.wrapping_add(b));
        } else if f5 == 0x01 {
            let _ = self.store(addr, 32, b);
        } else if f5 == 0x04 {
            let _ = self.store(addr, 32, t ^ b);
        } else if f5 == 0x08 {
            let _ = self.store(addr, 32, t | b);
        } else if f5 == 0x0c {
            let _ = self.store(addr, 32, t & b);
        } else if f5 == 0x10 {
            if lt_signed(b, t) {
                let _ = self.store(addr, 32, b);
            }
        } else if f5 == 0x14 {
            if lt_signed(t, b) {
                let _ = self.store(addr, 32, b);
            }
        } else if f5 == 0x18 {
            if b < t {
                let _ = self.store(addr, 32, b);
            }
        } else {
            if b > t {
                let _ = self.store(addr, 32, b);
            }
        }
        self.write_reg(rd, t);
        self.update_pc()
    }

    fn exec_system(&mut self, inst: u32) -> (r: Result<u32, Exception>)
        requires
            old(self).wf(),
            old(self)@.pc + 4 <= 0xffff_ffff,
        ensures
            final(self).wf(),
            final(self)@ == spec_exec_system(old(self)@, inst).0,
            r == spec_exec_system(old(self)@, inst).1,
    {
        let f3 = (inst >> 12) & 0x7;
        proof {
            lemma_decode_bounds(inst);
        }
        let ca = (inst >> 20) as usize;
        let rd = decode_rd(inst);
        let rs1 = decode_rs1(inst);
        if f3 == 0 {
            let r2 = decode_rs2(inst) as u32;
            let f7 = (inst >> 25) & 0x7f;
            if r2 == 0 && f7 == 0 {
                // ecall
                if self.mode == MACHINE {
                    Err(Exception::EnvironmentCallFromMMode(self.pc))
                } else if self.mode == SUPERVISOR {
                    Err(Exception::EnvironmentCallFromSMode(self.pc))
                } else {
                    Err(Exception::EnvironmentCallFromUMode(self.pc))
                }
            } else if r2 == 1 && f7 == 0 {
                // ebreak
                Err(Exception::Breakpoint(self.pc))
            } else if r2 == 2 && f7 == 0x08 {
                // sret
                if self.mode == SUPERVISOR || self.mode == MACHINE {
                    let sstatus = match self.csr.load(SSTATUS) {
                        Ok(v) => v,
                        Err(_) => 0,
                    };
                    let spp = (sstatus >> 8) & 1;
                    let spie = (sstatus >> 5) & 1;
                    let newpc = match self.csr.load(SEPC) {
                        Ok(v) => v,
                        Err(_) => 0,
                    } & 0xffff_fffc;
                    let ns = (sstatus & !(MASK_SIE | MASK_SPIE | MASK_SPP)) | (spie << 1)
                        | MASK_SPIE;
                    let _ = self.csr.store(SSTATUS, ns);
                    self.mode = spp;
                    proof {
                        lemma_decode_bounds(sstatus);
                    }
                    Ok(newpc)
                } else {
                    Err(Exception::IllegalInstruction(inst))
                }
            } else if r2 == 2 && f7 == 0x18 {
                // mret
                if self.mode == MACHINE {
                    let mstatus = match self.csr.load(MSTATUS) {
                        Ok(v) => v,
                        Err(_) => 0,
                    };
                    let mpp = (mstatus >> 11) & 3;
                    let mpie = (mstatus >> 7) & 1;
                    let newpc = match self.csr.load(MEPC) {
                        Ok(v) => v,
                        Err(_) => 0,
                    } & 0xffff_fffc;
                    let ns = (mstatus & !(MASK_MIE | MASK_MPIE | MASK_MPP)) | (mpie << 3)
                        | MASK_MPIE;
                    let _ = self.csr.store(MSTATUS, ns);
                    self.mode = if mpp == 2 {
                        USER
                    } else {
                        mpp
                    };
                    proof {
                        lemma_decode_bounds(mstatus);
                    }
                    Ok(newpc)
                } else {
                    Err(Exception::IllegalInstruction(inst))
                }
            } else if f7 == 0x09 {
                // sfence.vma: a no-op without address translation
                self.update_pc()
            } else {
                Err(Exception::IllegalInstruction(inst))
            }
        } else if f3 == 1 {
            // csrrw
            let t = match self.csr.load(ca) {
                Ok(v) => v,
                Err(e) => { return Err(e) },
            };
            self.write_reg(rd, t);
            let v = self.regs[rs1];
            let _ = self.csr.store(ca, v);
            self.update_pc()
        } else if f3 == 2 {
            // csrrs
            let t = match self.csr.load(ca) {
                Ok(v) => v,
                Err(e) => { return Err(e) },
            };
            self.write_reg(rd, t);
            let v = self.regs[rs1] | t;
            if rs1 != 0 {
                let _ = self.csr.store(ca, v);
            }
            self.update_pc()
        } else if f3 == 3 {
            // csrrc
            let t = match self.csr.load(ca) {
                Ok(v) => v,
                Err(e) => { return Err(e) },
            };
            self.write_reg(rd, t);
            let v = !self.regs[rs1] & t;
            if rs1 != 0 {
                let _ = self.csr.store(ca, v);
            }
            self.update_pc()
        } else if f3 == 5 {
            // csrrwi
            let t = match self.csr.load(ca) {
                Ok(v) => v,
                Err(e) => { return Err(e) },
            };
            self.write_reg(rd, t);
            let _ = self.csr.store(ca, rs1 as u32);
            self.update_pc()
        } else if f3 == 6 {
            // csrrsi
            let t = match self.csr.load(ca) {
                Ok(v) => v,
                Err(e) => { return Err(e) },
            };
            self.write_reg(rd, t);
            if rs1 != 0 {
                let _ = self.csr.store(ca, (rs1 as u32) | t);
            }
            self.update_pc()
        } else if f3 == 7 {
            // csrrci
            let t = match self.csr.load(ca) {
                Ok(v) => v,
                Err(e) => { return Err(e) },
            };
            self.write_reg(rd, t);
            if rs1 != 0 {
                let _ = self.csr.store(ca, !(rs1 as u32) & t);
            }
            self.update_pc()
        } else {
            Err(Exception::IllegalInstruction(inst))
        }
    }

    /// Delivers a synchronous exception: selects the target privilege
    /// via medeleg, records cause, epc and tval there, saves the
    /// interrupt enable and prior privilege in the status register, and
    /// redirects the pc to the trap vector.
    pub fn handle_exception(&mut self, e: Exception)
        requires
            old(self).wf(),
        ensures
            final(self).wf(),
            final(self)@ == spec_handle_exception(old(self)@, e),
    {
        let mode = self.mode;
        let code = e.code();
        if mode <= SUPERVISOR && self.csr.is_medelegated(code) {
            self.mode = SUPERVISOR;
            let _ = self.csr.store(SCAUSE, code);
            let _ = self.csr.store(SEPC, self.pc);
            let tvec = match self.csr.load(STVEC) {
                Ok(v) => v,
                Err(_) => 0,
            };
            let _ = self.csr.store(STVAL, e.value());
            let status = match self.csr.load(SSTATUS) {
                Ok(v) => v,
                Err(_) => 0,
            };
            let ns = (status & !(MASK_SPIE | MASK_SIE | MASK_SPP)) | (((status >> 1) & 1) << 5) | (
            mode << 8);
            let _ = self.csr.store(SSTATUS, ns);
            self.pc = tvec;
        } else {
            self.mode = MACHINE;
            let _ = self.csr.store(MCAUSE, code);
            let _ = self.csr.store(MEPC, self.pc);
            let tvec = match self.csr.load(MTVEC) {
                Ok(v) => v,
                Err(_) => 0,
            };
            let _ = self.csr.store(MTVAL, e.value());
            let status = match self.csr.load(MSTATUS) {
                Ok(v) => v,
                Err(_) => 0,
            };
            let ns = (status & !(MASK_MPIE | MASK_MIE | MASK_MPP)) | (((status >> 3) & 1) << 7) | (
            mode << 11);
            let _ = self.csr.store(MSTATUS, ns);
            self.pc = tvec;
        }
    }

    /// Polls for a deliverable interrupt: pending and enabled sources
    /// gated by the current mode's global enable, highest priority
    /// first. The chosen source's pending bit is cleared.
    pub fn check_pending_interrupt(&mut self) -> (r: Option<Interrupt>)
        requires
            old(self).wf(),
        ensures
            final(self).wf(),
            r == spec_pending_interrupt(old(self)@),
            final(self)@ == spec_take_interrupt(old(self)@),
    {
        let mstatus = match self.csr.load(MSTATUS) {
            Ok(v) => v,
            Err(_) => 0,
        };
        let sstatus = match self.csr.load(SSTATUS) {
            Ok(v) => v,
            Err(_) => 0,
        };
        if self.mode == MACHINE && mstatus & MASK_MIE == 0 {
            return None;
        }
        if self.mode == SUPERVISOR && sstatus & MASK_SIE == 0 {
            return None;
        }
        let mie = match self.csr.load(MIE) {
            Ok(v) => v,
            Err(_) => 0,
        };
        let mip = match self.csr.load(MIP) {
            Ok(v) => v,
            Err(_) => 0,
        };
        let pending = mie & mip;
        if pending & MASK_MEIP != 0 {
            let _ = self.csr.store(MIP, mip & !MASK_MEIP);
            return Some(Interrupt::MachineExternalInterrupt);
        }
        if pending & MASK_MSIP != 0 {
            let _ = self.csr.store(MIP, mip & !MASK_MSIP);
            return Some(Interrupt::MachineSoftwareInterrupt);
        }
        if pending & MASK_MTIP != 0 {
            let _ = self.csr.store(MIP, mip & !MASK_MTIP);
            return Some(Interrupt::MachineTimerInterrupt);
        }
        if pending & MASK_SEIP != 0 {
            let _ = self.csr.store(MIP, mip & !MASK_SEIP);
            return Some(Interrupt::SupervisorExternalInterrupt);
        }
        if pending & MASK_SSIP != 0 {
            let _ = self.csr.store(MIP, mip & !MASK_SSIP);
            return Some(Interrupt::SupervisorSoftwareInterrupt);
        }
        if pending & MASK_STIP != 0 {
            let _ = self.csr.store(MIP, mip & !MASK_STIP);
            return Some(Interrupt::SupervisorTimerInterrupt);
        }
        None
    }

    /// Delivers an interrupt: like exception delivery, but with the
    /// asynchronous cause, a zero payload, and vectored trap vectors
    /// honoured when the vector register's low two bits are one.
    pub fn handle_interrupt(&mut self, i: Interrupt)
        requires
            old(self).wf(),
        ensures
            final(self).wf(),
            final(self)@ == spec_handle_interrupt(old(self)@, i),
    {
        let mode = self.mode;
        let code = i.code();
        let low = code & 0x1f;
        proof {
            lemma_decode_bounds(code);
        }
        if mode <= SUPERVISOR && self.csr.is_midelegated(code) {
            self.mode = SUPERVISOR;
            let _ = self.csr.store(SEPC, self.pc);
            let tvec = match self.csr.load(STVEC) {
                Ok(v) => v,
                Err(_) => 0,
            };
            let newpc = if tvec & 3 == 1 {
                (tvec & 0xffff_fffc).wrapping_add(4 * low)
            } else {
                tvec & 0xffff_fffc
            };
            let _ = self.csr.store(SCAUSE, code);
            let _ = self.csr.store(STVAL, 0);
            let status = match self.csr.load(SSTATUS) {
                Ok(v) => v,
                Err(_) => 0,
            };
            let ns = (status & !(MASK_SPIE | MASK_SIE | MASK_SPP)) | (((status >> 1) & 1) << 5) | (
            mode << 8);
            let _ = self.csr.store(SSTATUS, ns);
            self.pc = newpc;
        } else {
            self.mode = MACHINE;
            let _ = self.csr.store(MEPC, self.pc);
            let tvec = match self.csr.load(MTVEC) {
                Ok(v) => v,
                Err(_) => 0,
            };
            let newpc = if tvec & 3 == 1 {
                (tvec & 0xffff_fffc).wrapping_add(4 * low)
            } else {
                tvec & 0xffff_fffc
            };
            let _ = self.csr.store(MCAUSE, code);
            let _ = self.csr.store(MTVAL, 0);
            let status = match self.csr.load(MSTATUS) {
                Ok(v) => v,
                Err(_) => 0,
            };
            let ns = (status & !(MASK_MPIE | MASK_MIE | MASK_MPP)) | (((status >> 3) & 1) << 7) | (
            mode << 11);
            let _ = self.csr.store(MSTATUS, ns);
            self.pc = newpc;
        }
    }

    /// One full interpreter step: fetch, execute, commit the pc, poll
    /// for an interrupt. Returns the exception raised this step, if
    /// any, after its trap has been delivered.
    pub fn step(&mut self) -> (r: Result<(), Exception>)
        requires
            old(self).wf(),
        ensures
            final(self).wf(),
            final(self)@ == spec_step(old(self)@).0,
            r == spec_step(old(self)@).1,
    {
        let inst = match self.fetch() {
            Ok(i) => i,
            Err(e) => {
                self.handle_exception(e);
                return Err(e);
            },
        };
        match self.execute(inst) {
            Ok(newpc) => {
                self.pc = newpc;
            },
            Err(e) => {
                self.handle_exception(e);
                return Err(e);
            },
        }
        match self.check_pending_interrupt() {
            Some(i) => self.handle_interrupt(i),
            None => {},
        }
        Ok(())
    }

    /// Decodes and executes one instruction word. The returned value is
    /// the pc of the next instruction to execute, or the exception the
    /// instruction raised; a raised exception leaves the state
    /// untouched. Register x0 still reads as zero afterwards, and the
    /// pc field itself is not advanced here.
    pub fn execute(&mut self, inst: u32) -> (r: Result<u32, Exception>)
        requires
            old(self).wf(),
            old(self)@.pc + 4 <= 0xffff_ffff,
        ensures
            final(self).wf(),
            final(self)@ == spec_execute(old(self)@, inst).0,
            r == spec_execute(old(self)@, inst).1,
            final(self)@.regs[0] == 0,
            final(self)@.pc == old(self)@.pc,
            final(self)@.mode == spec_execute(old(self)@, inst).0.mode,
    {
        let opcode = inst & 0x7f;
        if opcode == 0x03 {
            self.exec_load(inst)
        } else if opcode == 0x0f {
            let f3 = (inst >> 12) & 0x7;
            if f3 == 0 {
                self.update_pc()
            } else {
                Err(Exception::IllegalInstruction(inst))
            }
        } else if opcode == 0x13 {
            self.exec_op_imm(inst)
        } else if opcode == 0x17 {
            // auipc
            let rd = decode_rd(inst);
            let v = self.pc.wrapping_add(inst & 0xffff_f000);
            self.write_reg(rd, v);
            self.update_pc()
        } else if opcode == 0x1b {
            self.exec_op_imm32(inst)
        } else if opcode == 0x23 {
            self.exec_store(inst)
        } else if opcode == 0x2f {
            self.exec_amo(inst)
        } else if opcode == 0x33 {
            self.exec_op(inst)
        } else if opcode == 0x37 {
            // lui
            let rd = decode_rd(inst);
            self.write_reg(rd, inst & 0xffff_f000);
            self.update_pc()
        } else if opcode == 0x63 {
            self.exec_branch(inst)
        } else if opcode == 0x67 {
            // jalr
            let rd = decode_rd(inst);
            let target = self.regs[decode_rs1(inst)].wrapping_add(exec_imm_i(inst)) & 0xffff_fffe;
            let t = self.pc + 4;
            self.write_reg(rd, t);
            Ok(target)
        } else if opcode == 0x6f {
            // jal
            let rd = decode_rd(inst);
            let t = self.pc + 4;
            self.write_reg(rd, t);
            Ok(self.pc.wrapping_add(exec_imm_j(inst)))
        } else if opcode == 0x73 {
            self.exec_system(inst)
        } else {
            Err(Exception::IllegalInstruction(inst))
        }
    }
}

} // verus!
