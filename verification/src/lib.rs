//! Core of a single-hart RV32 instruction set emulator: DRAM and bus,
//! the CSR file with supervisor aliasing, trap delivery with delegation,
//! and the fetch-decode-execute interpreter.

pub mod alu;
pub mod bus;
pub mod cpu;
pub mod csr;
pub mod dram;
pub mod exceptions;
pub mod interrupt;
pub mod param;
