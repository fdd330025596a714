//! A verified emulator core for the MOS 6502 8-bit microprocessor.
//!
//! The crate models the architectural state of the processor (registers,
//! status flags, a flat 64 KiB memory image and a cycle counter) and executes
//! machine code one instruction at a time.  Every instruction handler is
//! specified against a mathematical step function over the machine state, so
//! the decoder, the addressing modes, the flag derivations and the cycle
//! accounting are all proved rather than tested alone.

pub mod bcd;
pub mod cpu;
pub mod cpu_helpers;
pub mod cpu_runner;
pub mod semantics;
