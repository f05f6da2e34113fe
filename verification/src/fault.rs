use vstd::prelude::*;

verus! {

/// A condition that stops an operation of the processor before it changes
/// anything. Every fault is reported to the host as a value.
#[derive(Clone, Copy, Debug, PartialEq, Eq, Structural)]
pub enum Fault {
    /// The word fetched from `pc` matches no instruction form.
    UnimplementedOpcode { opcode: u16, pc: u16 },
    /// A call was attempted with all sixteen stack slots in use.
    StackOverflow,
    /// A return was attempted with no return address on the stack.
    StackUnderflow,
    /// The program does not fit between the load address and the end of memory.
    ProgramTooLarge,
    /// An instruction would have read or written past the end of memory.
    AddressOutOfRange,
}

} // verus!
