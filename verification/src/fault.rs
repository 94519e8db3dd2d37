//! What happens when something goes wrong at run time: the program is stopped
//! and stays stopped.
//!
//! Stopping for good is an endless wait, which only the surrounding program can
//! perform. What is decided here is the state it is in from then on.

use vstd::prelude::*;

verus! {

/// Whether the program is still at work or has been stopped.
#[derive(Clone, Copy, Debug, PartialEq, Eq, Structural)]
pub enum Execution {
    /// Nothing has gone wrong so far.
    Running,
    /// A fault has occurred; the program waits and does nothing more.
    Halted,
}

/// Answers a fault: whatever the state before, the program is halted after.
///
/// There is no way back from `Halted`: handling a fault in that state leaves
/// it there. Nothing is unwound, nothing is resumed and nothing is reported.
pub fn panic(state: Execution) -> (next: Execution)
    ensures
        next == Execution::Halted,
{
    match state {
        Execution::Running => Execution::Halted,
        Execution::Halted => state,
    }
}

} // verus!
