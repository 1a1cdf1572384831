//! Terminal conditions reported to the host.

use vstd::prelude::*;

verus! {

/// Why the machine refused an operation.
#[derive(Clone, Copy, Debug, PartialEq, Eq, Structural)]
pub enum Chip8Error {
    /// The program image has `len` bytes, more than fit above the load address.
    LoadTooLarge { len: usize },
    /// A call was attempted with the stack pointer already at its last slot.
    StackOverflow,
    /// A return was attempted with an empty stack.
    StackUnderflow,
    /// The instruction word matches no implemented pattern.
    UnknownOpcode { opcode: u16 },
    /// An instruction needed the byte at `addr`, which lies outside memory.
    MemoryOutOfRange { addr: usize },
}

/// An error together with the place at which it arose.
#[derive(Clone, Copy, Debug, PartialEq, Eq, Structural)]
pub struct Fault {
    /// Address of the instruction that failed.
    pub pc: u16,
    /// The instruction word, where it could be fetched.
    pub opcode: Option<u16>,
    /// What went wrong.
    pub error: Chip8Error,
}

} // verus!
