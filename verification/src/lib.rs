//! An Intel 8080 CPU emulator core.
//!
//! The crate models the three subsystems at the heart of an 8080 emulator:
//! the instruction decoder (a total function from opcode bytes to symbolic
//! instruction records), the arithmetic/logic unit with its five flags, and
//! the fetch-decode-execute engine with registers, a flat 64 KiB memory,
//! a stack, I/O ports and a cycle counter.
//!
//! Hosts drive the engine through [`cpu::Cpu`]: load a program image, set the
//! program counter, then repeatedly call `execute_next`. Output written to
//! I/O ports is recorded in a log the host can read, and `CALL`s to addresses
//! registered for interception are reported back to the host instead of being
//! performed, so that a host can emulate operating-system entry points such
//! as the CP/M BDOS (see [`cp_m`]).

use vstd::prelude::*;

pub mod alu;
pub mod cp_m;
pub mod cpu;
pub mod instruction;
pub mod memory;
pub mod registers;
pub mod utils;

verus! {

/// The ways a core operation can fail.
#[derive(Clone, Copy, Debug, PartialEq, Eq, Structural)]
pub enum CpuError {
    /// An opcode byte outside the defined instruction table.
    Decode,
    /// A value's width does not match the width of the register written to.
    Width,
    /// A 16-bit memory access with its low byte at the last address.
    Address,
    /// A write to an operand form that cannot be written to.
    Operand,
    /// A value of the wrong width where an 8-bit value was needed.
    Conversion,
}

impl CpuError {
    /// A short human-readable description of the error.
    pub fn describe(&self) -> &'static str {
        match self {
            CpuError::Decode => "unknown or unsupported instruction",
            CpuError::Width => "value width does not match register width",
            CpuError::Address => "16-bit memory access outside of memory",
            CpuError::Operand => "attempt to write to an unwritable operand",
            CpuError::Conversion => "value is not an 8-bit integer",
        }
    }
}

} // verus!
