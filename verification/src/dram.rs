//! DRAM: a linear, little-endian, byte-addressable memory.
//!
//! Loads and stores accept sizes of 8, 16 or 32 bits and perform no
//! alignment checks; detecting out-of-bounds addresses is the bus's
//! responsibility, so in-range addresses are required here.

use vstd::prelude::*;
use vstd::pervasive::VecAdditionalExecFns;

use crate::exceptions::Exception;
use crate::param::{DRAM_BASE, DRAM_END, DRAM_SIZE};

verus! {

/// An access size is 8, 16 or 32 bits.
pub open spec fn valid_access_size(size: u32) -> bool {
    size == 8 || size == 16 || size == 32
}

/// The low `size` bits of `value`: what a store of `value` followed by a
/// load of the same size returns.
pub open spec fn low_bits(value: u32, size: u32) -> u32 {
    if size == 8 {
        (value % 0x100) as u32
    } else if size == 16 {
        (value % 0x1_0000) as u32
    } else {
        value
    }
}

/// The value of `size / 8` bytes of `mem` starting at `off`, assembled
/// little-endian.
pub open spec fn read_le(mem: Seq<u8>, off: int, size: u32) -> u32 {
    if size == 8 {
        mem[off] as u32
    } else if size == 16 {
        (mem[off] + 0x100 * mem[off + 1]) as u32
    } else {
        (mem[off] + 0x100 * mem[off + 1] + 0x1_0000 * mem[off + 2] + 0x100_0000 * mem[off + 3]) as u32
    }
}

/// `mem` with the low `size` bits of `value` stored little-endian at
/// `off`.
pub open spec fn write_le(mem: Seq<u8>, off: int, size: u32, value: u32) -> Seq<u8> {
    if size == 8 {
        mem.update(off, (value % 0x100) as u8)
    } else if size == 16 {
        mem.update(off, (value % 0x100) as u8).update(off + 1, ((value / 0x100) % 0x100) as u8)
    } else {
        mem.update(off, (value % 0x100) as u8).update(off + 1, ((value / 0x100) % 0x100) as u8)
            .update(off + 2, ((value / 0x1_0000) % 0x100) as u8)
            .update(off + 3, ((value / 0x100_0000) % 0x100) as u8)
    }
}

/// A load returns a word whose bits at and above `size` are zero.
pub proof fn lemma_read_le_bounded(mem: Seq<u8>, off: int, size: u32)
    requires
        valid_access_size(size),
        0 <= off,
        off + size / 8 <= mem.len(),
    ensures
        size == 8 ==> read_le(mem, off, size) < 0x100,
        size == 16 ==> read_le(mem, off, size) < 0x1_0000,
{
}

/// Round trip through memory: storing `value` at `off` and loading the
/// same size back returns the low `size` bits of `value`, with the
/// bits above `size` zero, and leaves every other byte unchanged.
pub proof fn lemma_le_round_trip(mem: Seq<u8>, off: int, size: u32, value: u32)
    requires
        valid_access_size(size),
        0 <= off,
        off + size / 8 <= mem.len(),
    ensures
        read_le(write_le(mem, off, size, value), off, size) == low_bits(value, size),
        write_le(mem, off, size, value).len() == mem.len(),
        forall|j: int|
            0 <= j < mem.len() && !(off <= j < off + size / 8) ==> write_le(
                mem,
                off,
                size,
                value,
            )[j] == mem[j],
{
    if size == 32 {
        assert(value % 0x100 + 0x100 * ((value / 0x100) % 0x100) + 0x1_0000 * ((value / 0x1_0000)
            % 0x100) + 0x100_0000 * ((value / 0x100_0000) % 0x100) == value) by (bit_vector);
    } else if size == 16 {
        assert(value % 0x100 + 0x100 * ((value / 0x100) % 0x100) == value % 0x1_0000)
            by (bit_vector);
    }
}

/// The backing DRAM: `DRAM_SIZE` bytes, all zero at reset.
pub struct Dram {
    data: Vec<u8>,
}

impl View for Dram {
    type V = Seq<u8>;

    closed spec fn view(&self) -> Seq<u8> {
        self.data@
    }
}

impl Dram {
    pub open spec fn wf(&self) -> bool {
        self@.len() == DRAM_SIZE
    }

    /// A zero-filled memory.
    pub fn new() -> (r: Dram)
        ensures
            r.wf(),
            forall|i: int| 0 <= i < DRAM_SIZE ==> r@[i] == 0u8,
    {
        Dram { data: vec![0u8; DRAM_SIZE as usize] }
    }

    /// Replaces the whole memory with `image` at offset zero, zero-extended
    /// to `DRAM_SIZE`; an image longer than the memory is truncated.
    pub fn load_instruction(&mut self, image: &Vec<u8>) -> (r: Result<(), Exception>)
        ensures
            final(self).wf(),
            r == Ok::<(), Exception>(()),
            forall|i: int|
                0 <= i < DRAM_SIZE ==> final(self)@[i] == (if i < image@.len() {
                    image@[i]
                } else {
                    0u8
                }),
    {
        let mut fresh: Vec<u8> = vec![0u8; DRAM_SIZE as usize];
        let n: usize = if image.len() < DRAM_SIZE as usize {
            image.len()
        } else {
            DRAM_SIZE as usize
        };
        let mut i: usize = 0;
        while i < n
            invariant
                i <= n,
                n <= image@.len(),
                n <= DRAM_SIZE,
                fresh@.len() == DRAM_SIZE,
                forall|k: int| 0 <= k < i ==> fresh@[k] == image@[k],
                forall|k: int| i <= k < DRAM_SIZE ==> fresh@[k] == 0u8,
            decreases n - i,
        {
            fresh.set(i, image[i]);
            i = i + 1;
        }
        self.data = fresh;
        Ok(())
    }

    /// Little-endian load of `size` bits at `addr`.
    pub fn load(&self, addr: u32, size: u32) -> (r: Result<u32, Exception>)
        requires
            self.wf(),
            valid_access_size(size) ==> DRAM_BASE <= addr && addr + size / 8 <= DRAM_END + 1,
        ensures
            valid_access_size(size) ==> r == Ok::<u32, Exception>(
                read_le(self@, addr - DRAM_BASE, size),
            ),
            !valid_access_size(size) ==> r == Err::<u32, Exception>(
                Exception::LoadAccessFault(addr),
            ),
    {
        if !(size == 8 || size == 16 || size == 32) {
            return Err(Exception::LoadAccessFault(addr));
        }
        let index = (addr - DRAM_BASE) as usize;
        if size == 8 {
            Ok(self.data[index] as u32)
        } else if size == 16 {
            Ok(self.data[index] as u32 + 0x100 * self.data[index + 1] as u32)
        } else {
            Ok(
                self.data[index] as u32 + 0x100 * self.data[index + 1] as u32 + 0x1_0000
                    * self.data[index + 2] as u32 + 0x100_0000 * self.data[index + 3] as u32,
            )
        }
    }

    /// Little-endian store of the low `size` bits of `value` at `addr`.
    pub fn store(&mut self, addr: u32, size: u32, value: u32) -> (r: Result<(), Exception>)
        requires
            old(self).wf(),
            valid_access_size(size) ==> DRAM_BASE <= addr && addr + size / 8 <= DRAM_END + 1,
        ensures
            final(self).wf(),
            valid_access_size(size) ==> r == Ok::<(), Exception>(()) && final(self)@ == write_le(
                old(self)@,
                addr - DRAM_BASE,
                size,
                value,
            ),
            !valid_access_size(size) ==> r == Err::<(), Exception>(
                Exception::StoreAMOAccessFault(addr),
            ) && final(self)@ == old(self)@,
    {
        if !(size == 8 || size == 16 || size == 32) {
            return Err(Exception::StoreAMOAccessFault(addr));
        }
        let index = (addr - DRAM_BASE) as usize;
        self.data.set(index, (value % 0x100) as u8);
        if size >= 16 {
            self.data.set(index + 1, ((value / 0x100) % 0x100) as u8);
        }
        if size == 32 {
            self.data.set(index + 2, ((value / 0x1_0000) % 0x100) as u8);
            self.data.set(index + 3, ((value / 0x100_0000) % 0x100) as u8);
        }
        Ok(())
    }
}

} // verus!
