//! Failure conditions of the interpreter: decode failures, out-of-range
//! memory accesses, call-stack overflow and underflow, and a program image
//! too large for the program region.

use vstd::prelude::*;

verus! {

/// Every way a machine operation can fail. All failures are fatal to the
/// current execution and leave the machine state unchanged, so the host can
/// inspect the state that produced the fault.
#[derive(Clone, Copy, Debug, PartialEq, Eq, Structural)]
pub enum CpuError {
    /// The fetched word matches no entry of the instruction table.
    /// Reports the raw opcode word and the address it was fetched from.
    UnknownOpcode { opcode: u16, address: u16 },
    /// A memory access (fetch, sprite read, register block transfer, or
    /// binary-coded-decimal store) would fall outside the address space.
    /// Reports the base address of the offending access.
    MemoryOutOfBounds { address: u16 },
    /// A call would push the stack below its reserved region.
    StackOverflow,
    /// A return was executed with an empty call stack.
    StackUnderflow,
    /// The program image does not fit between the program base and the top
    /// of memory. Reports the image length.
    ProgramTooLarge { len: usize },
}

} // verus!
