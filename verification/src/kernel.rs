//! A small event-table harness: events are registered under names and
//! applied to an owned state by name.

use crate::error::Error;
use crate::event::Event;
use crate::state::AbstractState;
use vstd::prelude::*;

verus! {

/// An abstract state together with the named events that act on it.
pub struct Kernel<S, E> where S: AbstractState, E: Event<S> {
    /// The state the events act on.
    pub state: S,
    /// The registered events, in registration order.
    pub events: Vec<(String, E)>,
}

impl<S, E> Kernel<S, E> where S: AbstractState, E: Event<S> {
    /// Whether some event is registered under `name`.
    pub open spec fn has_event(&self, name: Seq<char>) -> bool {
        exists|i: int| 0 <= i < self.events@.len() && (#[trigger] self.events@[i]).0@ == name
    }

    /// A kernel over the given state, with no events registered yet.
    pub fn new(state: S) -> (r: Self)
        ensures
            r.state == state,
            r.events@.len() == 0,
    {
        Kernel { state, events: Vec::new() }
    }

    /// Register an event under a name.
    pub fn register(&mut self, name: &str, event: E)
        ensures
            final(self).state == old(self).state,
            final(self).events@.len() == old(self).events@.len() + 1,
            (final(self).events@.last()).0@ == name@,
            (final(self).events@.last()).1 == event,
            forall|i: int|
                0 <= i < old(self).events@.len() ==> final(self).events@[i] == old(
                    self,
                ).events@[i],
    {
        let key = name.to_string();
        self.events.push((key, event));
    }

    /// Apply the first event registered under `event_name` to the state;
    /// report `EventNotFound`, leaving the state alone, when no event bears
    /// that name.  What a found event does to the state is the event's own
    /// business: `Event` makes no promise about `apply`.
    pub fn step(&mut self, event_name: &str) -> (r: Result<(), Error>)
        ensures
            final(self).events == old(self).events,
            !old(self).has_event(event_name@) ==> r == Result::<(), Error>::Err(
                Error::EventNotFound,
            ) && final(self).state == old(self).state,
    {
        let key = event_name.to_string();
        let mut i: usize = 0;
        while i < self.events.len()
            invariant
                0 <= i <= self.events@.len(),
                key@ == event_name@,
                self.events == old(self).events,
                self.state == old(self).state,
                forall|k: int| 0 <= k < i ==> (#[trigger] self.events@[k]).0@ != event_name@,
            decreases self.events@.len() - i,
        {
            if self.events[i].0 == key {
                return self.events[i].1.apply(&mut self.state);
            }
            i += 1;
        }
        Err(Error::EventNotFound)
    }
}

} // verus!
