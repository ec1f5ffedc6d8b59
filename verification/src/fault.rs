//! The recoverable failures of the machine.

use vstd::prelude::*;

verus! {

/// A failure that an operation reports to its caller. None of them stops the
/// process: the caller decides what to do next.
#[derive(Clone, Copy, Debug, PartialEq, Eq, Structural)]
pub enum Fault {
    /// A memory index is not below the capacity.
    OutOfBounds,
    /// A register name, or a register index packed into an instruction, is
    /// outside the fixed set of eight.
    UnknownRegister,
}

impl Fault {
    /// A short description for diagnostics.
    pub fn describe(self) -> (result: &'static str)
        ensures
            result@ == (match self {
                Fault::OutOfBounds => "no such memory location exists"@,
                Fault::UnknownRegister => "no such register exists"@,
            }),
    {
        match self {
            Fault::OutOfBounds => "no such memory location exists",
            Fault::UnknownRegister => "no such register exists",
        }
    }
}

} // verus!
