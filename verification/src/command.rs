//! Commands and their sources: a command executes against the abstract model
//! and serializes for target transmission; a commander decides which command
//! runs next.

use crate::error::Error;
use crate::state::AbstractState;
use vstd::prelude::*;

verus! {

/// A command that can be executed on a state.
///
/// Execution is deterministic and total over well-formed states: a command
/// whose precondition is unsatisfiable reports its designated failure code
/// instead of halting, since the real target is expected to fail the same
/// way.
pub trait Command<T: AbstractState>: core::fmt::Debug {
    /// The relation `execute` establishes between the state before and the
    /// state after the command.
    spec fn execute_post(&self, pre: &T, post: &T) -> bool;

    /// The result code `execute` returns, a function of the pre-state.
    spec fn execute_ret(&self, pre: &T) -> isize;

    /// The serialized form of the command.
    spec fn wire_spec(&self) -> Seq<u8>;

    /// The display name of the command.
    spec fn name_spec(&self) -> Seq<char>;

    /// Execute the command on the given state.
    fn execute(&self, state: &mut T) -> (r: isize)
        ensures
            self.execute_post(old(state), final(state)),
            r == self.execute_ret(old(state)),
    ;

    /// Serialize the command to a byte array.
    fn to_bytes(&self) -> (r: Vec<u8>)
        ensures
            r@ == self.wire_spec(),
    ;

    /// The command's display name.
    fn stringify(&self) -> (r: String)
        ensures
            r@ == self.name_spec(),
    ;
}

/// Generate commands for both the abstract model and the target kernel.
pub trait Commander<S: AbstractState> {
    /// The type of command this commander produces.
    type Cmd: Command<S>;

    /// What a completed request for the next command guarantees.
    spec fn command_post(&self, next: &Self, state: &S, r: &Result<Self::Cmd, Error>) -> bool;

    /// Get the next command to execute, possibly consulting the model state
    /// to avoid vacuous commands.  An error return (`Error::Exhausted`)
    /// signals normal session termination, not a fault.
    fn command(&mut self, state: &S) -> (r: Result<Self::Cmd, Error>)
        ensures
            old(self).command_post(final(self), state, &r),
    ;
}

} // verus!
