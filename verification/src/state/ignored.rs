//! Cells that take part in a state without ever being compared.

use super::AbstractState;
use vstd::prelude::*;

verus! {

/// Mark a field as not-checked and not-updated.
///
/// Operators wrap expected-divergent fields (timestamps, padding, private
/// control data) in `Ignored` so they never produce a false mismatch and are
/// never overwritten by a baseline update.
#[derive(Debug, Clone, Default)]
pub struct Ignored<T>(pub T);

impl<T: Clone> AbstractState for Ignored<T> {
    open spec fn matches_spec(&self, other: &Self) -> bool {
        true
    }

    open spec fn updated(&self, other: &Self, next: &Self) -> bool {
        next == self
    }

    fn matches(&self, other: &Self) -> (r: bool) {
        true
    }

    fn update(&mut self, other: &Self) {
    }

    proof fn lemma_matches_reflexive(&self) {
    }

    proof fn lemma_updated_matches(&self, other: &Self, next: &Self) {
    }

    proof fn lemma_cloned_matches(a: &Self, b: &Self) {
    }
}

/// An `Ignored` field is left exactly as it was by `update`, whatever the
/// source state holds.
pub proof fn lemma_ignored_update_unchanged<T: Clone>(
    prev: &Ignored<T>,
    other: &Ignored<T>,
    next: &Ignored<T>,
)
    requires
        prev.updated(other, next),
    ensures
        next == prev,
{
}

/// Mark a field as not-checked.
///
/// The older name for a cell that never participates in comparison; unlike a
/// plain payload it satisfies `matches` unconditionally.
#[derive(Debug, Clone, Default)]
pub struct Unmatched<T>(pub T);

impl<T: Clone> AbstractState for Unmatched<T> {
    open spec fn matches_spec(&self, other: &Self) -> bool {
        true
    }

    open spec fn updated(&self, other: &Self, next: &Self) -> bool {
        next == self
    }

    fn matches(&self, other: &Self) -> (r: bool) {
        true
    }

    fn update(&mut self, other: &Self) {
    }

    proof fn lemma_matches_reflexive(&self) {
    }

    proof fn lemma_updated_matches(&self, other: &Self, next: &Self) {
    }

    proof fn lemma_cloned_matches(a: &Self, b: &Self) {
    }
}

} // verus!
