//! Wrapper primitives that are checked value-by-value: exact cells, ordered
//! lists, unordered collections, and integer-keyed maps.

use super::AbstractState;
use vstd::prelude::*;

verus! {

use vstd::pervasive::cloned;

/// A cell that is checked value-by-value: it matches exactly when its payload
/// does, and a baseline update replaces the payload.
#[derive(Debug)]
pub struct Value<T>(pub T);

impl<T: AbstractState> Clone for Value<T> {
    fn clone(&self) -> (r: Self)
        ensures
            cloned::<T>(self.0, r.0),
    {
        Value(self.0.clone())
    }
}

impl<T: AbstractState> AbstractState for Value<T> {
    open spec fn matches_spec(&self, other: &Self) -> bool {
        self.0.matches_spec(&other.0)
    }

    open spec fn updated(&self, other: &Self, next: &Self) -> bool {
        self.0.updated(&other.0, &next.0)
    }

    fn matches(&self, other: &Self) -> (r: bool) {
        self.0.matches(&other.0)
    }

    fn update(&mut self, other: &Self) {
        self.0.update(&other.0);
    }

    proof fn lemma_matches_reflexive(&self) {
        self.0.lemma_matches_reflexive();
    }

    proof fn lemma_updated_matches(&self, other: &Self, next: &Self) {
        self.0.lemma_updated_matches(&other.0, &next.0);
    }

    proof fn lemma_cloned_matches(a: &Self, b: &Self) {
        if a == b {
            a.0.lemma_matches_reflexive();
        } else {
            T::lemma_cloned_matches(&a.0, &b.0);
        }
    }
}

/// An ordered list of values, checked element by element, in order.
#[derive(Debug)]
pub struct ValueList<T>(pub Vec<T>);

impl<T: AbstractState> Clone for ValueList<T> {
    fn clone(&self) -> (r: Self)
        ensures
            r.0@.len() == self.0@.len(),
            forall|i: int| 0 <= i < self.0@.len() ==> cloned::<T>(self.0@[i], #[trigger] r.0@[i]),
    {
        ValueList(self.0.clone())
    }
}

impl<T: AbstractState> AbstractState for ValueList<T> {
    open spec fn matches_spec(&self, other: &Self) -> bool {
        &&& self.0@.len() == other.0@.len()
        &&& forall|i: int|
            0 <= i < self.0@.len() ==> #[trigger] self.0@[i].matches_spec(&other.0@[i])
    }

    open spec fn updated(&self, other: &Self, next: &Self) -> bool {
        &&& next.0@.len() == other.0@.len()
        &&& forall|i: int| 0 <= i < other.0@.len() ==> cloned::<T>(other.0@[i], #[trigger] next.0@[i])
    }

    fn matches(&self, other: &Self) -> (r: bool) {
        if self.0.len() != other.0.len() {
            return false;
        }
        let mut i: usize = 0;
        while i < self.0.len()
            invariant
                0 <= i <= self.0@.len(),
                self.0@.len() == other.0@.len(),
                forall|j: int| 0 <= j < i ==> #[trigger] self.0@[j].matches_spec(&other.0@[j]),
            decreases self.0@.len() - i,
        {
            if !self.0[i].matches(&other.0[i]) {
                return false;
            }
            i += 1;
        }
        true
    }

    fn update(&mut self, other: &Self) {
        self.0 = other.0.clone();
    }

    proof fn lemma_matches_reflexive(&self) {
        assert forall|i: int|
            0 <= i < self.0@.len() implies #[trigger] self.0@[i].matches_spec(&self.0@[i]) by {
            self.0@[i].lemma_matches_reflexive();
        }
    }

    proof fn lemma_updated_matches(&self, other: &Self, next: &Self) {
        assert forall|i: int|
            0 <= i < next.0@.len() implies #[trigger] next.0@[i].matches_spec(&other.0@[i]) by {
            T::lemma_cloned_matches(&other.0@[i], &next.0@[i]);
        }
    }

    proof fn lemma_cloned_matches(a: &Self, b: &Self) {
        if a == b {
            a.lemma_matches_reflexive();
        } else {
            assert forall|i: int|
                0 <= i < a.0@.len() implies #[trigger] a.0@[i].matches_spec(&b.0@[i]) by {
                T::lemma_cloned_matches(&a.0@[i], &b.0@[i]);
            }
            assert forall|i: int|
                0 <= i < b.0@.len() implies #[trigger] b.0@[i].matches_spec(&a.0@[i]) by {
                T::lemma_cloned_matches(&a.0@[i], &b.0@[i]);
            }
        }
    }
}

/// Whether `x` has some matching counterpart in `others`.
pub open spec fn has_counterpart<T: AbstractState>(x: T, others: Seq<T>) -> bool {
    exists|j: int| 0 <= j < others.len() && #[trigger] x.matches_spec(&others[j])
}

/// An unordered collection of values: it matches when the sizes agree and
/// every element has some matching counterpart on the other side.
///
/// Counterparts are not consumed, so this is deliberately looser than a
/// multiset equality: two distinct elements may share one counterpart.
#[derive(Debug)]
pub struct ValueSet<T>(pub Vec<T>);

impl<T: AbstractState> Clone for ValueSet<T> {
    fn clone(&self) -> (r: Self)
        ensures
            r.0@.len() == self.0@.len(),
            forall|i: int| 0 <= i < self.0@.len() ==> cloned::<T>(self.0@[i], #[trigger] r.0@[i]),
    {
        ValueSet(self.0.clone())
    }
}

impl<T: AbstractState> AbstractState for ValueSet<T> {
    open spec fn matches_spec(&self, other: &Self) -> bool {
        &&& self.0@.len() == other.0@.len()
        &&& forall|i: int| 0 <= i < self.0@.len() ==> has_counterpart(#[trigger] self.0@[i], other.0@)
    }

    open spec fn updated(&self, other: &Self, next: &Self) -> bool {
        &&& next.0@.len() == other.0@.len()
        &&& forall|i: int| 0 <= i < other.0@.len() ==> cloned::<T>(other.0@[i], #[trigger] next.0@[i])
    }

    fn matches(&self, other: &Self) -> (r: bool) {
        if self.0.len() != other.0.len() {
            return false;
        }
        let mut i: usize = 0;
        while i < self.0.len()
            invariant
                0 <= i <= self.0@.len(),
                self.0@.len() == other.0@.len(),
                forall|k: int| 0 <= k < i ==> has_counterpart(#[trigger] self.0@[k], other.0@),
            decreases self.0@.len() - i,
        {
            let mut j: usize = 0;
            let mut found = false;
            while j < other.0.len() && !found
                invariant
                    0 <= j <= other.0@.len(),
                    i < self.0@.len(),
                    !found ==> forall|m: int|
                        0 <= m < j ==> !#[trigger] self.0@[i as int].matches_spec(&other.0@[m]),
                    found ==> has_counterpart(self.0@[i as int], other.0@),
                decreases other.0@.len() - j + (if found {
                    0int
                } else {
                    1int
                }),
            {
                if self.0[i].matches(&other.0[j]) {
                    found = true;
                } else {
                    j += 1;
                }
            }
            if !found {
                proof {
                    assert(!has_counterpart(self.0@[i as int], other.0@));
                }
                return false;
            }
            i += 1;
        }
        true
    }

    fn update(&mut self, other: &Self) {
        self.0 = other.0.clone();
    }

    proof fn lemma_matches_reflexive(&self) {
        assert forall|i: int|
            0 <= i < self.0@.len() implies has_counterpart(#[trigger] self.0@[i], self.0@) by {
            self.0@[i].lemma_matches_reflexive();
        }
    }

    proof fn lemma_updated_matches(&self, other: &Self, next: &Self) {
        assert forall|i: int|
            0 <= i < next.0@.len() implies has_counterpart(#[trigger] next.0@[i], other.0@) by {
            T::lemma_cloned_matches(&other.0@[i], &next.0@[i]);
        }
    }

    proof fn lemma_cloned_matches(a: &Self, b: &Self) {
        if a == b {
            a.lemma_matches_reflexive();
        } else {
            assert forall|i: int|
                0 <= i < a.0@.len() implies has_counterpart(#[trigger] a.0@[i], b.0@) by {
                T::lemma_cloned_matches(&a.0@[i], &b.0@[i]);
            }
            assert forall|i: int|
                0 <= i < b.0@.len() implies has_counterpart(#[trigger] b.0@[i], a.0@) by {
                T::lemma_cloned_matches(&a.0@[i], &b.0@[i]);
            }
        }
    }
}

/// Whether the entry `e` has a counterpart entry in `others`: same key,
/// matching value.
pub open spec fn has_entry<V: AbstractState>(e: (usize, V), others: Seq<(usize, V)>) -> bool {
    exists|j: int|
        0 <= j < others.len() && (#[trigger] others[j]).0 == e.0 && e.1.matches_spec(&others[j].1)
}

/// A map of values keyed by integer identifiers: it matches when the sizes
/// agree and every entry has a counterpart entry under the same key with a
/// matching value.
#[derive(Debug)]
pub struct ValueMap<V>(pub Vec<(usize, V)>);

impl<V: AbstractState> Clone for ValueMap<V> {
    fn clone(&self) -> (r: Self)
        ensures
            r.0@.len() == self.0@.len(),
            forall|i: int|
                0 <= i < self.0@.len() ==> (#[trigger] r.0@[i]).0 == self.0@[i].0 && cloned::<V>(
                    self.0@[i].1,
                    r.0@[i].1,
                ),
    {
        let mut entries: Vec<(usize, V)> = Vec::new();
        let mut i: usize = 0;
        while i < self.0.len()
            invariant
                0 <= i <= self.0@.len(),
                entries@.len() == i,
                forall|k: int|
                    0 <= k < i ==> (#[trigger] entries@[k]).0 == self.0@[k].0 && cloned::<V>(
                        self.0@[k].1,
                        entries@[k].1,
                    ),
            decreases self.0@.len() - i,
        {
            let key = self.0[i].0;
            let val = self.0[i].1.clone();
            entries.push((key, val));
            i += 1;
        }
        ValueMap(entries)
    }
}

impl<V: AbstractState> AbstractState for ValueMap<V> {
    open spec fn matches_spec(&self, other: &Self) -> bool {
        &&& self.0@.len() == other.0@.len()
        &&& forall|i: int| 0 <= i < self.0@.len() ==> has_entry(#[trigger] self.0@[i], other.0@)
    }

    open spec fn updated(&self, other: &Self, next: &Self) -> bool {
        &&& next.0@.len() == other.0@.len()
        &&& forall|i: int|
            0 <= i < other.0@.len() ==> (#[trigger] next.0@[i]).0 == other.0@[i].0 && cloned::<V>(
                other.0@[i].1,
                next.0@[i].1,
            )
    }

    fn matches(&self, other: &Self) -> (r: bool) {
        if self.0.len() != other.0.len() {
            return false;
        }
        let mut i: usize = 0;
        while i < self.0.len()
            invariant
                0 <= i <= self.0@.len(),
                self.0@.len() == other.0@.len(),
                forall|k: int| 0 <= k < i ==> has_entry(#[trigger] self.0@[k], other.0@),
            decreases self.0@.len() - i,
        {
            let mut j: usize = 0;
            let mut found = false;
            while j < other.0.len() && !found
                invariant
                    0 <= j <= other.0@.len(),
                    i < self.0@.len(),
                    self.0@.len() == other.0@.len(),
                    !found ==> forall|m: int|
                        0 <= m < j ==> !((#[trigger] other.0@[m]).0 == self.0@[i as int].0
                            && self.0@[i as int].1.matches_spec(&other.0@[m].1)),
                    found ==> has_entry(self.0@[i as int], other.0@),
                decreases other.0@.len() - j + (if found {
                    0int
                } else {
                    1int
                }),
            {
                if self.0[i].0 == other.0[j].0 && self.0[i].1.matches(&other.0[j].1) {
                    found = true;
                } else {
                    j += 1;
                }
            }
            if !found {
                proof {
                    assert(!has_entry(self.0@[i as int], other.0@));
                }
                return false;
            }
            i += 1;
        }
        true
    }

    fn update(&mut self, other: &Self) {
        let fresh = other.clone();
        self.0 = fresh.0;
    }

    proof fn lemma_matches_reflexive(&self) {
        assert forall|i: int|
            0 <= i < self.0@.len() implies has_entry(#[trigger] self.0@[i], self.0@) by {
            self.0@[i].1.lemma_matches_reflexive();
            assert((self.0@[i]).0 == self.0@[i].0 && self.0@[i].1.matches_spec(&self.0@[i].1));
        }
    }

    proof fn lemma_updated_matches(&self, other: &Self, next: &Self) {
        assert forall|i: int|
            0 <= i < next.0@.len() implies has_entry(#[trigger] next.0@[i], other.0@) by {
            V::lemma_cloned_matches(&other.0@[i].1, &next.0@[i].1);
            assert((other.0@[i]).0 == next.0@[i].0 && next.0@[i].1.matches_spec(&other.0@[i].1));
        }
    }

    proof fn lemma_cloned_matches(a: &Self, b: &Self) {
        if a == b {
            a.lemma_matches_reflexive();
        } else {
            assert forall|i: int|
                0 <= i < a.0@.len() implies has_entry(#[trigger] a.0@[i], b.0@) by {
                V::lemma_cloned_matches(&a.0@[i].1, &b.0@[i].1);
                assert((b.0@[i]).0 == a.0@[i].0 && a.0@[i].1.matches_spec(&b.0@[i].1));
            }
            assert forall|i: int|
                0 <= i < b.0@.len() implies has_entry(#[trigger] b.0@[i], a.0@) by {
                V::lemma_cloned_matches(&a.0@[i].1, &b.0@[i].1);
                assert((a.0@[i]).0 == b.0@[i].0 && b.0@[i].1.matches_spec(&a.0@[i].1));
            }
        }
    }
}

} // verus!
