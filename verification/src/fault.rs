use vstd::prelude::*;

verus! {

/// Why a cycle could not be carried out. A fault stops the machine: the
/// instruction that raised it has no effect.
#[derive(Clone, Copy, Debug, PartialEq, Eq, Structural)]
pub enum Fault {
    /// The instruction word matches no instruction of the machine.
    UnknownOpcode,
    /// The program counter does not point at two bytes inside the address space.
    ProgramCounterOutOfRange,
    /// The instruction reads or writes memory past the last address.
    MemoryOutOfRange,
    /// A call was made with every usable stack slot taken.
    StackOverflow,
    /// A key instruction named a key above 0xF.
    KeyOutOfRange,
}

/// Why a program image was refused.
#[derive(Clone, Copy, Debug, PartialEq, Eq, Structural)]
pub enum LoadError {
    /// The image is longer than the program region.
    TooLarge,
}

} // verus!
