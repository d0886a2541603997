//! Fatal faults of the interpreter.

use vstd::prelude::*;

verus! {

/// Why execution halted.
#[derive(Clone, Copy, Debug, PartialEq, Eq, Structural)]
pub enum Fault {
    /// The fetched word matches no instruction; carries the raw word.
    InvalidOpcode(u16),
    /// A call was made with sixteen return addresses already stacked.
    StackOverflow,
    /// A return was made with no return address stacked.
    StackUnderflow,
}

} // verus!
