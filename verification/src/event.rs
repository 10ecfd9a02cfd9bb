//! Events: named state transformations applied through an event table.

use crate::error::Error;
use crate::state::AbstractState;
use vstd::prelude::*;

verus! {

/// An event that can be applied to an abstract state.
pub trait Event<T: AbstractState> {
    /// Apply the event to the state.
    fn apply(&self, state: &mut T) -> Result<(), Error>;
}

} // verus!
