//! The fatal conditions that stop a run of the machine.

use vstd::prelude::*;

verus! {

/// A condition that aborts execution. None of them is recovered from inside
/// the machine; the host decides what to do next.
#[derive(Clone, Copy, Debug, PartialEq, Eq, Structural)]
pub enum Fault {
    /// The word does not match any of the legal instruction patterns.
    UnknownOpcode { word: u16 },
    /// A machine-code routine call (`0NNN` other than `00E0`/`00EE`); such
    /// routines are not supported and are never executed.
    UnsupportedRoutine,
    /// A memory access at or beyond the top of memory.
    MemoryOutOfBounds { address: u16 },
    /// The address register would receive a value above `0xFFF`.
    AddressOutOfRange { value: u16 },
    /// A call nested deeper than the stack can hold.
    StackOverflow,
}

} // verus!
