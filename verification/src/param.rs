//! Memory-map parameters.

use vstd::prelude::*;

verus! {

/// First physical address of DRAM.
pub const DRAM_BASE: u32 = 0x8000_0000;

/// Number of bytes of DRAM (512 MiB).
pub const DRAM_SIZE: u32 = 512 * 1024 * 1024;

/// Last valid DRAM byte address, inclusive.
pub const DRAM_END: u32 = DRAM_BASE + DRAM_SIZE - 1;

/// First address of the region reserved for a UART peripheral.
pub const UART_BASE: u32 = 0x1000_0000;

/// Number of bytes reserved for the UART peripheral.
pub const UART_SIZE: u32 = 0x100;

/// End of the region reserved for the UART peripheral.
pub const UART_END: u32 = UART_BASE + UART_SIZE;

} // verus!
