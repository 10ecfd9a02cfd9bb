//! The typed outcomes a checking session can end with.

use vstd::prelude::*;

verus! {

/// Session faults and termination causes.
///
/// `Io`, `StateMismatch` and `ReturnValueMismatch` are genuine faults;
/// `ExecutionFailed` carries a command's own designated failure code;
/// `Exhausted` is the normal end of a scripted command source;
/// `EventNotFound` reports a lookup miss in an event table.
#[derive(Debug, Clone, Copy, PartialEq, Eq, Structural)]
pub enum Error {
    /// Transport failure while talking to the target.
    Io,
    /// Structural state divergence under strict checking.
    StateMismatch,
    /// Result-code divergence under strict checking.
    ReturnValueMismatch,
    /// A command reported its designated failure code.
    ExecutionFailed(isize),
    /// The command source has no further command; normal termination.
    Exhausted,
    /// No event is registered under the requested name.
    EventNotFound,
}

} // verus!
