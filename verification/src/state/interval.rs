//! Half-open intervals with a payload, modeling address and offset ranges.

use super::AbstractState;
use vstd::prelude::*;

verus! {

use vstd::pervasive::cloned;

/// A half-open interval `[left, right)` carrying a payload.
///
/// Beyond comparison it supports the pure bound-pair operations `contains`,
/// `overlaps`, `covers`, `intersect` and `subtract`.
#[derive(Debug)]
pub struct Interval<T> {
    /// Left bound (inclusive).
    pub left: usize,
    /// Right bound (exclusive).
    pub right: usize,
    /// Associated value.
    pub value: T,
}

impl<T: AbstractState> Clone for Interval<T> {
    fn clone(&self) -> (r: Self)
        ensures
            r.left == self.left,
            r.right == self.right,
            cloned::<T>(self.value, r.value),
    {
        Interval { left: self.left, right: self.right, value: self.value.clone() }
    }
}

impl<T: AbstractState> AbstractState for Interval<T> {
    open spec fn matches_spec(&self, other: &Self) -> bool {
        &&& self.left == other.left
        &&& self.right == other.right
        &&& self.value.matches_spec(&other.value)
    }

    open spec fn updated(&self, other: &Self, next: &Self) -> bool {
        &&& next.left == other.left
        &&& next.right == other.right
        &&& self.value.updated(&other.value, &next.value)
    }

    fn matches(&self, other: &Self) -> (r: bool) {
        self.left == other.left && self.right == other.right && self.value.matches(&other.value)
    }

    fn update(&mut self, other: &Self) {
        self.left = other.left;
        self.right = other.right;
        self.value.update(&other.value);
    }

    proof fn lemma_matches_reflexive(&self) {
        self.value.lemma_matches_reflexive();
    }

    proof fn lemma_updated_matches(&self, other: &Self, next: &Self) {
        self.value.lemma_updated_matches(&other.value, &next.value);
    }

    proof fn lemma_cloned_matches(a: &Self, b: &Self) {
        if a == b {
            a.value.lemma_matches_reflexive();
        } else {
            T::lemma_cloned_matches(&a.value, &b.value);
        }
    }
}

impl<T: AbstractState> Interval<T> {
    /// Build an interval from its bounds and payload.
    pub fn new(left: usize, right: usize, value: T) -> (r: Self)
        ensures
            r.left == left,
            r.right == right,
            r.value == value,
    {
        Interval { left, right, value }
    }

    /// Whether `point` lies within the bounds.
    pub open spec fn contains_spec(&self, point: usize) -> bool {
        self.left <= point < self.right
    }

    /// Check if the interval contains a point.
    pub fn contains(&self, point: usize) -> (r: bool)
        ensures
            r == self.contains_spec(point),
    {
        self.left <= point && self.right > point
    }

    /// Whether the two intervals share at least one point.
    pub open spec fn overlaps_spec(&self, other: &Self) -> bool {
        self.contains_spec(other.left) || other.contains_spec(self.left)
    }

    /// Check if the interval overlaps with another.
    pub fn overlaps(&self, other: &Self) -> (r: bool)
        ensures
            r == self.overlaps_spec(other),
    {
        self.contains(other.left) || other.contains(self.left)
    }

    /// Whether the interval covers the other strictly, with room on both
    /// sides: equal bounds do not count as covering.
    pub open spec fn covers_spec(&self, other: &Self) -> bool {
        self.left < other.left && self.right > other.right
    }

    /// Check if the interval covers the other strictly.
    pub fn covers(&self, other: &Self) -> (r: bool)
        ensures
            r == self.covers_spec(other),
    {
        self.left < other.left && self.right > other.right
    }

    /// Whether `iv` is a fragment `[l, rr)` of this interval: same payload
    /// (up to cloning), given bounds.
    pub open spec fn fragment_spec(&self, iv: Interval<T>, l: usize, rr: usize) -> bool {
        &&& iv.left == l
        &&& iv.right == rr
        &&& cloned::<T>(self.value, iv.value)
    }

    /// The intersection of two intervals, tagged with the left operand's
    /// payload; `None` when they do not overlap.
    pub fn intersect(&self, other: &Self) -> (r: Option<Self>)
        ensures
            r is Some <==> self.overlaps_spec(other),
            r matches Some(iv) ==> self.fragment_spec(
                iv,
                if self.left >= other.left {
                    self.left
                } else {
                    other.left
                },
                if self.right <= other.right {
                    self.right
                } else {
                    other.right
                },
            ),
    {
        if self.overlaps(other) {
            let l = if self.left >= other.left {
                self.left
            } else {
                other.left
            };
            let rr = if self.right <= other.right {
                self.right
            } else {
                other.right
            };
            Some(Interval { left: l, right: rr, value: self.value.clone() })
        } else {
            None
        }
    }

    /// The parts of this interval that lie outside the other: the whole
    /// interval when they do not overlap, otherwise up to two fragments,
    /// left of `other` first, each copying the payload.
    pub fn subtract(&self, other: &Self) -> (r: Vec<Self>)
        ensures
            !self.overlaps_spec(other) ==> r@.len() == 1 && self.fragment_spec(
                r@[0],
                self.left,
                self.right,
            ),
            self.overlaps_spec(other) && self.left < other.left && self.right > other.right
                ==> r@.len() == 2 && self.fragment_spec(r@[0], self.left, other.left)
                && self.fragment_spec(r@[1], other.right, self.right),
            self.overlaps_spec(other) && self.left < other.left && self.right <= other.right
                ==> r@.len() == 1 && self.fragment_spec(r@[0], self.left, other.left),
            self.overlaps_spec(other) && self.left >= other.left && self.right > other.right
                ==> r@.len() == 1 && self.fragment_spec(r@[0], other.right, self.right),
            self.overlaps_spec(other) && self.left >= other.left && self.right <= other.right
                ==> r@.len() == 0,
    {
        if !self.overlaps(other) {
            let mut result: Vec<Self> = Vec::new();
            result.push(self.clone());
            return result;
        }
        let mut result: Vec<Self> = Vec::new();
        if self.left < other.left {
            result.push(Interval { left: self.left, right: other.left, value: self.value.clone() });
        }
        if self.right > other.right {
            result.push(
                Interval { left: other.right, right: self.right, value: self.value.clone() },
            );
        }
        result
    }
}

/// Overlapping is symmetric: whether two intervals share a point does not
/// depend on the order of the operands.
pub proof fn lemma_overlaps_symmetric<T: AbstractState>(a: &Interval<T>, b: &Interval<T>)
    ensures
        a.overlaps_spec(b) == b.overlaps_spec(a),
{
}

} // verus!
