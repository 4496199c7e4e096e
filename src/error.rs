use vstd::prelude::*;

verus! {

/// The failures that loading a program or executing an instruction can report.
#[derive(Debug, Clone, Copy, PartialEq, Eq, Structural)]
pub enum Chip8Error {
    /// The program does not fit in the memory above the program start address.
    RomTooLarge,
    /// The opcode matches no instruction of the base instruction set.
    UnknownOpcode(u16),
    /// A call would push a frame past the last slot of the call stack,
    /// or the stack pointer already lies past it.
    StackOverflow,
    /// A return was executed with no frame on the call stack.
    StackUnderflow,
    /// An instruction would read or write memory past its last byte.
    AddressOutOfRange,
    /// A key instruction named a register whose value is not a key index.
    InvalidKey(u8),
}

} // verus!
