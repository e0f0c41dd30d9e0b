//! The fatal conditions that execution reports to its caller.

use vstd::prelude::*;

verus! {

/// A condition that stops execution and is handed to the caller.
#[derive(Clone, Copy, Debug, PartialEq, Eq, Structural)]
pub enum Fault {
    /// A call with all 16 stack slots in use.
    StackOverflow,
    /// A return with no return address on the stack.
    StackUnderflow,
    /// An access to a byte at address 4096 or beyond.
    AddressOutOfBounds,
}

} // verus!
