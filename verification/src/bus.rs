//! The bus: an address decoder in front of DRAM.
//!
//! A physical address is routed to the device that owns it; today that
//! is DRAM alone, and every other address faults. The bus also rejects
//! accesses that would run past the end of DRAM, so the memory itself
//! can assume in-range addresses.

use vstd::prelude::*;

use crate::dram::{read_le, valid_access_size, write_le, Dram};
use crate::exceptions::Exception;
use crate::param::{DRAM_BASE, DRAM_END, DRAM_SIZE};

verus! {

/// Whether an access of `size` bits at `addr` falls entirely inside DRAM.
pub open spec fn bus_access_ok(addr: u32, size: u32) -> bool {
    valid_access_size(size) && DRAM_BASE <= addr && addr + size / 8 <= DRAM_END + 1
}

pub struct Bus {
    dram: Dram,
}

impl View for Bus {
    type V = Seq<u8>;

    closed spec fn view(&self) -> Seq<u8> {
        self.dram@
    }
}

impl Bus {
    pub open spec fn wf(&self) -> bool {
        self@.len() == DRAM_SIZE
    }

    pub fn new() -> (r: Bus)
        ensures
            r.wf(),
            forall|i: int| 0 <= i < DRAM_SIZE ==> r@[i] == 0u8,
    {
        Bus { dram: Dram::new() }
    }

    /// Loads a binary image into DRAM starting at `DRAM_BASE`.
    pub fn load_binary(&mut self, image: &Vec<u8>) -> (r: Result<(), Exception>)
        ensures
            final(self).wf(),
            r == Ok::<(), Exception>(()),
            forall|i: int|
                0 <= i < DRAM_SIZE ==> final(self)@[i] == (if i < image@.len() {
                    image@[i]
                } else {
                    0u8
                }),
    {
        self.dram.load_instruction(image)
    }

    /// Loads `size` bits at physical address `addr`, faulting on any
    /// access that is not wholly inside DRAM or whose size is invalid.
    pub fn load(&self, addr: u32, size: u32) -> (r: Result<u32, Exception>)
        requires
            self.wf(),
        ensures
            bus_access_ok(addr, size) ==> r == Ok::<u32, Exception>(
                read_le(self@, addr - DRAM_BASE, size),
            ),
            !bus_access_ok(addr, size) ==> r == Err::<u32, Exception>(
                Exception::LoadAccessFault(addr),
            ),
    {
        if addr < DRAM_BASE || addr > DRAM_END {
            return Err(Exception::LoadAccessFault(addr));
        }
        if !(size == 8 || size == 16 || size == 32) {
            return Err(Exception::LoadAccessFault(addr));
        }
        let nbytes = size / 8;
        if addr - DRAM_BASE > DRAM_SIZE - nbytes {
            return Err(Exception::LoadAccessFault(addr));
        }
        self.dram.load(addr, size)
    }

    /// Stores the low `size` bits of `value` at physical address `addr`,
    /// faulting on any access that is not wholly inside DRAM or whose
    /// size is invalid.
    pub fn store(&mut self, addr: u32, size: u32, value: u32) -> (r: Result<(), Exception>)
        requires
            old(self).wf(),
        ensures
            final(self).wf(),
            bus_access_ok(addr, size) ==> r == Ok::<(), Exception>(()) && final(self)@ == write_le(
                old(self)@,
                addr - DRAM_BASE,
                size,
                value,
            ),
            !bus_access_ok(addr, size) ==> r == Err::<(), Exception>(
                Exception::StoreAMOAccessFault(addr),
            ) && final(self)@ == old(self)@,
    {
        if addr < DRAM_BASE || addr > DRAM_END {
            return Err(Exception::StoreAMOAccessFault(addr));
        }
        if !(size == 8 || size == 16 || size == 32) {
            return Err(Exception::StoreAMOAccessFault(addr));
        }
        let nbytes = size / 8;
        if addr - DRAM_BASE > DRAM_SIZE - nbytes {
            return Err(Exception::StoreAMOAccessFault(addr));
        }
        self.dram.store(addr, size, value)
    }
}

} // verus!
