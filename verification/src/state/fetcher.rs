//! One-shot retrieval of a full abstract state from the target.

use super::AbstractState;
use crate::error::Error;
use vstd::prelude::*;

verus! {

use vstd::pervasive::cloned;

/// Retrieve a complete abstract state from the target kernel in one call.
pub trait StateFetcher<S: AbstractState> {
    /// Get the target's current abstract state.
    fn get_state(&mut self) -> Result<S, Error>;
}

/// A fake state fetcher that owns a mirror state and hands out copies of it.
pub struct FakeStateFetcher<S>(pub S);

impl<S: AbstractState> StateFetcher<S> for FakeStateFetcher<S> {
    fn get_state(&mut self) -> (r: Result<S, Error>)
        ensures
            *final(self) == *old(self),
            r is Ok,
            r matches Ok(s) ==> cloned::<S>(old(self).0, s),
    {
        Ok(self.0.clone())
    }
}

} // verus!
