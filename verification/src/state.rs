//! The abstract-state algebra: the capability every comparable state type
//! offers, its implementations for the scalar types and `Option`, and the
//! wrapper primitives the algebra is composed from.

use vstd::prelude::*;

mod fetcher;
mod ident;
mod ignored;
mod interval;
mod value;

pub use fetcher::FakeStateFetcher;
pub use fetcher::StateFetcher;
pub use ident::Ident;
pub use ident::IdentList;
pub use ident::IdentSet;
pub use ident::map_ident;
pub use ignored::Ignored;
pub use ignored::Unmatched;
pub use interval::Interval;
pub use value::Value;
pub use value::ValueList;
pub use value::ValueMap;
pub use value::ValueSet;

verus! {

use vstd::pervasive::cloned;

/// A reduced, comparison-focused representation of a system's observable
/// state.
///
/// `matches` is observational equivalence under the precision of this state
/// type; `update` absorbs another state as the new baseline.  Every
/// implementation carries three laws: `matches` is reflexive, a completed
/// `update` leaves a value that matches its source, and a clone matches its
/// original in both directions.
pub trait AbstractState: Sized + Clone {
    /// What `matches` decides.
    spec fn matches_spec(&self, other: &Self) -> bool;

    /// What `update` guarantees: `next` is the value this state became after
    /// absorbing `other`.
    spec fn updated(&self, other: &Self, next: &Self) -> bool;

    /// Check whether the current state matches the other state.
    fn matches(&self, other: &Self) -> (r: bool)
        ensures
            r == self.matches_spec(other),
    ;

    /// Update the current state with the other state.
    fn update(&mut self, other: &Self)
        ensures
            old(self).updated(other, final(self)),
    ;

    /// Every state matches itself.
    proof fn lemma_matches_reflexive(&self)
        ensures
            self.matches_spec(self),
    ;

    /// A state that has absorbed another matches it.
    proof fn lemma_updated_matches(&self, other: &Self, next: &Self)
        requires
            self.updated(other, next),
        ensures
            next.matches_spec(other),
    ;

    /// A clone is indistinguishable from its original.
    proof fn lemma_cloned_matches(a: &Self, b: &Self)
        requires
            cloned::<Self>(*a, *b),
        ensures
            a.matches_spec(b),
            b.matches_spec(a),
    ;
}

impl AbstractState for u8 {
    open spec fn matches_spec(&self, other: &Self) -> bool {
        self == other
    }

    open spec fn updated(&self, other: &Self, next: &Self) -> bool {
        next == other
    }

    fn matches(&self, other: &Self) -> (r: bool) {
        *self == *other
    }

    fn update(&mut self, other: &Self) {
        *self = *other;
    }

    proof fn lemma_matches_reflexive(&self) {
    }

    proof fn lemma_updated_matches(&self, other: &Self, next: &Self) {
    }

    proof fn lemma_cloned_matches(a: &Self, b: &Self) {
    }
}

impl AbstractState for u16 {
    open spec fn matches_spec(&self, other: &Self) -> bool {
        self == other
    }

    open spec fn updated(&self, other: &Self, next: &Self) -> bool {
        next == other
    }

    fn matches(&self, other: &Self) -> (r: bool) {
        *self == *other
    }

    fn update(&mut self, other: &Self) {
        *self = *other;
    }

    proof fn lemma_matches_reflexive(&self) {
    }

    proof fn lemma_updated_matches(&self, other: &Self, next: &Self) {
    }

    proof fn lemma_cloned_matches(a: &Self, b: &Self) {
    }
}

impl AbstractState for u32 {
    open spec fn matches_spec(&self, other: &Self) -> bool {
        self == other
    }

    open spec fn updated(&self, other: &Self, next: &Self) -> bool {
        next == other
    }

    fn matches(&self, other: &Self) -> (r: bool) {
        *self == *other
    }

    fn update(&mut self, other: &Self) {
        *self = *other;
    }

    proof fn lemma_matches_reflexive(&self) {
    }

    proof fn lemma_updated_matches(&self, other: &Self, next: &Self) {
    }

    proof fn lemma_cloned_matches(a: &Self, b: &Self) {
    }
}

impl AbstractState for u64 {
    open spec fn matches_spec(&self, other: &Self) -> bool {
        self == other
    }

    open spec fn updated(&self, other: &Self, next: &Self) -> bool {
        next == other
    }

    fn matches(&self, other: &Self) -> (r: bool) {
        *self == *other
    }

    fn update(&mut self, other: &Self) {
        *self = *other;
    }

    proof fn lemma_matches_reflexive(&self) {
    }

    proof fn lemma_updated_matches(&self, other: &Self, next: &Self) {
    }

    proof fn lemma_cloned_matches(a: &Self, b: &Self) {
    }
}

impl AbstractState for u128 {
    open spec fn matches_spec(&self, other: &Self) -> bool {
        self == other
    }

    open spec fn updated(&self, other: &Self, next: &Self) -> bool {
        next == other
    }

    fn matches(&self, other: &Self) -> (r: bool) {
        *self == *other
    }

    fn update(&mut self, other: &Self) {
        *self = *other;
    }

    proof fn lemma_matches_reflexive(&self) {
    }

    proof fn lemma_updated_matches(&self, other: &Self, next: &Self) {
    }

    proof fn lemma_cloned_matches(a: &Self, b: &Self) {
    }
}

impl AbstractState for usize {
    open spec fn matches_spec(&self, other: &Self) -> bool {
        self == other
    }

    open spec fn updated(&self, other: &Self, next: &Self) -> bool {
        next == other
    }

    fn matches(&self, other: &Self) -> (r: bool) {
        *self == *other
    }

    fn update(&mut self, other: &Self) {
        *self = *other;
    }

    proof fn lemma_matches_reflexive(&self) {
    }

    proof fn lemma_updated_matches(&self, other: &Self, next: &Self) {
    }

    proof fn lemma_cloned_matches(a: &Self, b: &Self) {
    }
}

impl AbstractState for i8 {
    open spec fn matches_spec(&self, other: &Self) -> bool {
        self == other
    }

    open spec fn updated(&self, other: &Self, next: &Self) -> bool {
        next == other
    }

    fn matches(&self, other: &Self) -> (r: bool) {
        *self == *other
    }

    fn update(&mut self, other: &Self) {
        *self = *other;
    }

    proof fn lemma_matches_reflexive(&self) {
    }

    proof fn lemma_updated_matches(&self, other: &Self, next: &Self) {
    }

    proof fn lemma_cloned_matches(a: &Self, b: &Self) {
    }
}

impl AbstractState for i16 {
    open spec fn matches_spec(&self, other: &Self) -> bool {
        self == other
    }

    open spec fn updated(&self, other: &Self, next: &Self) -> bool {
        next == other
    }

    fn matches(&self, other: &Self) -> (r: bool) {
        *self == *other
    }

    fn update(&mut self, other: &Self) {
        *self = *other;
    }

    proof fn lemma_matches_reflexive(&self) {
    }

    proof fn lemma_updated_matches(&self, other: &Self, next: &Self) {
    }

    proof fn lemma_cloned_matches(a: &Self, b: &Self) {
    }
}

impl AbstractState for i32 {
    open spec fn matches_spec(&self, other: &Self) -> bool {
        self == other
    }

    open spec fn updated(&self, other: &Self, next: &Self) -> bool {
        next == other
    }

    fn matches(&self, other: &Self) -> (r: bool) {
        *self == *other
    }

    fn update(&mut self, other: &Self) {
        *self = *other;
    }

    proof fn lemma_matches_reflexive(&self) {
    }

    proof fn lemma_updated_matches(&self, other: &Self, next: &Self) {
    }

    proof fn lemma_cloned_matches(a: &Self, b: &Self) {
    }
}

impl AbstractState for i64 {
    open spec fn matches_spec(&self, other: &Self) -> bool {
        self == other
    }

    open spec fn updated(&self, other: &Self, next: &Self) -> bool {
        next == other
    }

    fn matches(&self, other: &Self) -> (r: bool) {
        *self == *other
    }

    fn update(&mut self, other: &Self) {
        *self = *other;
    }

    proof fn lemma_matches_reflexive(&self) {
    }

    proof fn lemma_updated_matches(&self, other: &Self, next: &Self) {
    }

    proof fn lemma_cloned_matches(a: &Self, b: &Self) {
    }
}

impl AbstractState for i128 {
    open spec fn matches_spec(&self, other: &Self) -> bool {
        self == other
    }

    open spec fn updated(&self, other: &Self, next: &Self) -> bool {
        next == other
    }

    fn matches(&self, other: &Self) -> (r: bool) {
        *self == *other
    }

    fn update(&mut self, other: &Self) {
        *self = *other;
    }

    proof fn lemma_matches_reflexive(&self) {
    }

    proof fn lemma_updated_matches(&self, other: &Self, next: &Self) {
    }

    proof fn lemma_cloned_matches(a: &Self, b: &Self) {
    }
}

impl AbstractState for isize {
    open spec fn matches_spec(&self, other: &Self) -> bool {
        self == other
    }

    open spec fn updated(&self, other: &Self, next: &Self) -> bool {
        next == other
    }

    fn matches(&self, other: &Self) -> (r: bool) {
        *self == *other
    }

    fn update(&mut self, other: &Self) {
        *self = *other;
    }

    proof fn lemma_matches_reflexive(&self) {
    }

    proof fn lemma_updated_matches(&self, other: &Self, next: &Self) {
    }

    proof fn lemma_cloned_matches(a: &Self, b: &Self) {
    }
}

impl AbstractState for bool {
    open spec fn matches_spec(&self, other: &Self) -> bool {
        self == other
    }

    open spec fn updated(&self, other: &Self, next: &Self) -> bool {
        next == other
    }

    fn matches(&self, other: &Self) -> (r: bool) {
        *self == *other
    }

    fn update(&mut self, other: &Self) {
        *self = *other;
    }

    proof fn lemma_matches_reflexive(&self) {
    }

    proof fn lemma_updated_matches(&self, other: &Self, next: &Self) {
    }

    proof fn lemma_cloned_matches(a: &Self, b: &Self) {
    }
}

impl AbstractState for char {
    open spec fn matches_spec(&self, other: &Self) -> bool {
        self == other
    }

    open spec fn updated(&self, other: &Self, next: &Self) -> bool {
        next == other
    }

    fn matches(&self, other: &Self) -> (r: bool) {
        *self == *other
    }

    fn update(&mut self, other: &Self) {
        *self = *other;
    }

    proof fn lemma_matches_reflexive(&self) {
    }

    proof fn lemma_updated_matches(&self, other: &Self, next: &Self) {
    }

    proof fn lemma_cloned_matches(a: &Self, b: &Self) {
    }
}

impl AbstractState for String {
    open spec fn matches_spec(&self, other: &Self) -> bool {
        self@ == other@
    }

    open spec fn updated(&self, other: &Self, next: &Self) -> bool {
        next@ == other@
    }

    fn matches(&self, other: &Self) -> (r: bool) {
        *self == *other
    }

    fn update(&mut self, other: &Self) {
        *self = other.clone();
    }

    proof fn lemma_matches_reflexive(&self) {
    }

    proof fn lemma_updated_matches(&self, other: &Self, next: &Self) {
    }

    proof fn lemma_cloned_matches(a: &Self, b: &Self) {
    }
}

impl<T: AbstractState> AbstractState for Option<T> {
    open spec fn matches_spec(&self, other: &Self) -> bool {
        match (self, other) {
            (Some(a), Some(b)) => a.matches_spec(b),
            (None, None) => true,
            _ => false,
        }
    }

    open spec fn updated(&self, other: &Self, next: &Self) -> bool {
        match other {
            Some(b) => match (self, next) {
                (Some(a), Some(c)) => a.updated(b, c),
                (None, Some(c)) => cloned::<T>(*b, *c),
                _ => false,
            },
            None => next is None,
        }
    }

    fn matches(&self, other: &Self) -> (r: bool) {
        match (self, other) {
            (Some(a), Some(b)) => a.matches(b),
            (None, None) => true,
            _ => false,
        }
    }

    fn update(&mut self, other: &Self) {
        match other {
            Some(b) => {
                if let Some(a) = self {
                    a.update(b);
                } else {
                    *self = Some(b.clone());
                }
            },
            None => {
                *self = None;
            },
        }
    }

    proof fn lemma_matches_reflexive(&self) {
        if let Some(a) = self {
            a.lemma_matches_reflexive();
        }
    }

    proof fn lemma_updated_matches(&self, other: &Self, next: &Self) {
        if let Some(b) = other {
            match (self, next) {
                (Some(a), Some(c)) => a.lemma_updated_matches(b, c),
                (None, Some(c)) => T::lemma_cloned_matches(b, c),
                _ => (),
            }
        }
    }

    proof fn lemma_cloned_matches(a: &Self, b: &Self) {
        match (a, b) {
            (Some(x), Some(y)) => {
                if a == b {
                    x.lemma_matches_reflexive();
                } else {
                    T::lemma_cloned_matches(x, y);
                }
            },
            _ => (),
        }
    }
}

} // verus!
