//! Relabeled-identifier collections.
//!
//! Concrete identifier values (handles, addresses, task ids) are
//! target-specific, so identifier collections are compared only after
//! mapping every identifier to the rank of its first occurrence.  Two
//! sequences built the same way then match whatever concrete values the
//! model and the target happened to assign.

use super::AbstractState;
use vstd::prelude::*;

verus! {

/// A single opaque identifier.  One identifier on its own carries no
/// comparable information, so it always matches.
#[derive(Debug, Clone, Copy, PartialEq, Eq, Structural)]
pub struct Ident(pub usize);

impl AbstractState for Ident {
    open spec fn matches_spec(&self, other: &Self) -> bool {
        true
    }

    open spec fn updated(&self, other: &Self, next: &Self) -> bool {
        next == other
    }

    fn matches(&self, other: &Self) -> (r: bool) {
        true
    }

    fn update(&mut self, other: &Self) {
        *self = *other;
    }

    proof fn lemma_matches_reflexive(&self) {
    }

    proof fn lemma_updated_matches(&self, other: &Self, next: &Self) {
    }

    proof fn lemma_cloned_matches(a: &Self, b: &Self) {
    }
}

/// The distinct identifiers among the first `i` elements of `s`, in
/// first-occurrence order.
pub open spec fn seen_prefix(s: Seq<usize>, i: int) -> Seq<usize>
    decreases i,
{
    if i <= 0 {
        Seq::empty()
    } else {
        let p = seen_prefix(s, i - 1);
        if p.contains(s[i - 1]) {
            p
        } else {
            p.push(s[i - 1])
        }
    }
}

/// The position of `v` in `seen`; unique when `seen` has no duplicates.
pub open spec fn rank_in(seen: Seq<usize>, v: usize) -> int {
    choose|j: int| 0 <= j < seen.len() && seen[j] == v
}

/// The canonical form of an identifier sequence: every identifier replaced
/// by the rank its value first occurred at.
pub open spec fn canon(s: Seq<usize>) -> Seq<usize> {
    Seq::new(s.len(), |i: int| rank_in(seen_prefix(s, i + 1), s[i]) as usize)
}

/// Two identifier sequences match when their canonical forms are equal.
pub open spec fn ident_seq_matches(a: Seq<usize>, b: Seq<usize>) -> bool {
    canon(a) == canon(b)
}

/// How many times `v` occurs in `s`.
pub open spec fn count_of(s: Seq<usize>, v: usize) -> nat
    decreases s.len(),
{
    if s.len() == 0 {
        0
    } else {
        count_of(s.drop_last(), v) + (if s.last() == v {
            1nat
        } else {
            0nat
        })
    }
}

/// Two identifier sequences match as sets when their canonical forms hold
/// the same ranks with the same multiplicities.
pub open spec fn ident_set_matches(a: Seq<usize>, b: Seq<usize>) -> bool {
    a.len() == b.len() && forall|v: usize| count_of(canon(a), v) == count_of(canon(b), v)
}

/// No value occurs twice in `s`.
pub open spec fn distinct_seq(s: Seq<usize>) -> bool {
    forall|p: int, q: int| 0 <= p < q < s.len() ==> s[p] != s[q]
}

/// A seen-prefix never grows beyond the elements it has read.
proof fn lemma_seen_prefix_len(s: Seq<usize>, i: int)
    ensures
        seen_prefix(s, i).len() <= (if i >= 0 {
            i
        } else {
            0
        }),
    decreases i,
{
    if i > 0 {
        lemma_seen_prefix_len(s, i - 1);
    }
}

/// A seen-prefix holds no duplicates.
proof fn lemma_seen_distinct(s: Seq<usize>, i: int)
    ensures
        distinct_seq(seen_prefix(s, i)),
    decreases i,
{
    if i > 0 {
        lemma_seen_distinct(s, i - 1);
    }
}

/// In a duplicate-free sequence the rank of a contained value is the one
/// index it stands at.
proof fn lemma_rank_in_is(seen: Seq<usize>, v: usize, j: int)
    requires
        distinct_seq(seen),
        0 <= j < seen.len(),
        seen[j] == v,
    ensures
        rank_in(seen, v) == j,
{
    assert(0 <= j < seen.len() && seen[j] == v);
    let k = rank_in(seen, v);
    assert(0 <= k < seen.len() && seen[k] == v);
    if k != j {
        if k < j {
            assert(seen[k] != seen[j]);
        } else {
            assert(seen[j] != seen[k]);
        }
    }
}

/// `f` renames identifiers without ever merging two distinct values.
pub open spec fn injective(f: spec_fn(usize) -> usize) -> bool {
    forall|x: usize, y: usize| #[trigger] f(x) == #[trigger] f(y) ==> x == y
}

/// The first `i` elements of a renamed sequence collect exactly the renamed
/// seen-prefix of the original.
proof fn lemma_seen_prefix_relabel(s: Seq<usize>, f: spec_fn(usize) -> usize, i: int)
    requires
        injective(f),
        i <= s.len(),
    ensures
        seen_prefix(s.map_values(f), i) == seen_prefix(s, i).map_values(f),
    decreases i,
{
    let sm = s.map_values(f);
    if i <= 0 {
        assert(seen_prefix(sm, i) =~= seen_prefix(s, i).map_values(f));
    } else {
        lemma_seen_prefix_relabel(s, f, i - 1);
        let p = seen_prefix(s, i - 1);
        let pm = seen_prefix(sm, i - 1);
        let v = s[i - 1];
        assert(sm[i - 1] == f(v));
        if p.contains(v) {
            let k = choose|k: int| 0 <= k < p.len() && p[k] == v;
            assert(pm[k] == f(v));
            assert(pm.contains(f(v)));
            assert(seen_prefix(sm, i) == seen_prefix(s, i).map_values(f));
        } else {
            if pm.contains(f(v)) {
                let k = choose|k: int| 0 <= k < pm.len() && pm[k] == f(v);
                assert(f(p[k]) == f(v));
                assert(p[k] == v);
                assert(false);
            }
            assert(seen_prefix(sm, i) =~= seen_prefix(s, i).map_values(f));
        }
    }
}

/// Every element is contained in the seen-prefix that has read it.
proof fn lemma_seen_contains_own(s: Seq<usize>, i: int)
    requires
        0 <= i < s.len(),
    ensures
        seen_prefix(s, i + 1).contains(s[i]),
{
    let p = seen_prefix(s, i);
    if !p.contains(s[i]) {
        assert(seen_prefix(s, i + 1)[p.len() as int] == s[i]);
    }
}

/// A renamed sequence has the same canonical form as the original: the
/// canonical form depends only on the pattern of repetition, never on the
/// concrete identifier values.
pub proof fn lemma_canon_relabel(s: Seq<usize>, f: spec_fn(usize) -> usize)
    requires
        injective(f),
    ensures
        canon(s.map_values(f)) == canon(s),
{
    let sm = s.map_values(f);
    assert forall|i: int| 0 <= i < s.len() implies canon(sm)[i] == canon(s)[i] by {
        let seen = seen_prefix(s, i + 1);
        lemma_seen_prefix_relabel(s, f, i + 1);
        lemma_seen_distinct(s, i + 1);
        lemma_seen_contains_own(s, i);
        let j0 = rank_in(seen, s[i]);
        assert(0 <= j0 < seen.len() && seen[j0] == s[i]);
        let seenm = seen.map_values(f);
        assert forall|p: int, q: int| 0 <= p < q < seenm.len() implies seenm[p] != seenm[q] by {
            assert(seen[p] != seen[q]);
            if f(seen[p]) == f(seen[q]) {
                assert(seen[p] == seen[q]);
            }
        }
        assert(seenm[j0] == f(s[i]));
        lemma_rank_in_is(seenm, f(s[i]), j0);
        assert(sm[i] == f(s[i]));
    }
    assert(canon(sm) =~= canon(s));
}

/// Relabeling invariance: an injective renaming of the concrete identifier
/// values, applied to both sides, leaves the outcome of matching unchanged,
/// for ordered identifier sequences and for identifier sets alike.
pub proof fn lemma_relabel_invariance(a: Seq<usize>, b: Seq<usize>, f: spec_fn(usize) -> usize)
    requires
        injective(f),
    ensures
        ident_seq_matches(a.map_values(f), b.map_values(f)) == ident_seq_matches(a, b),
        ident_set_matches(a.map_values(f), b.map_values(f)) == ident_set_matches(a, b),
{
    lemma_canon_relabel(a, f);
    lemma_canon_relabel(b, f);
}

/// Matching of relabeled-identifier collections is an equivalence relation:
/// canonical forms are compared by plain equality, so matching is reflexive,
/// symmetric and transitive, for ordered sequences and for sets alike.
pub proof fn lemma_ident_matches_equivalence(a: Seq<usize>, b: Seq<usize>, c: Seq<usize>)
    ensures
        ident_seq_matches(a, a),
        ident_seq_matches(a, b) == ident_seq_matches(b, a),
        ident_seq_matches(a, b) && ident_seq_matches(b, c) ==> ident_seq_matches(a, c),
        ident_set_matches(a, a),
        ident_set_matches(a, b) == ident_set_matches(b, a),
        ident_set_matches(a, b) && ident_set_matches(b, c) ==> ident_set_matches(a, c),
{
}

/// Find the position of `v` among the values collected so far.
fn find_rank(seen: &Vec<usize>, v: usize) -> (r: Option<usize>)
    ensures
        r matches Some(j) ==> j < seen@.len() && seen@[j as int] == v,
        r is None ==> !seen@.contains(v),
{
    let mut j: usize = 0;
    while j < seen.len()
        invariant
            0 <= j <= seen@.len(),
            forall|m: int| 0 <= m < j ==> seen@[m] != v,
        decreases seen@.len() - j,
    {
        if seen[j] == v {
            return Some(j);
        }
        j += 1;
    }
    None
}

/// Compute the canonical form of a raw identifier sequence.
fn canonicalize(list: &Vec<usize>) -> (r: Vec<usize>)
    ensures
        r@ == canon(list@),
{
    let ghost s = list@;
    let mut seen: Vec<usize> = Vec::new();
    let mut mapped: Vec<usize> = Vec::new();
    let mut i: usize = 0;
    while i < list.len()
        invariant
            0 <= i <= s.len(),
            s == list@,
            seen@ == seen_prefix(s, i as int),
            mapped@.len() == i,
            forall|k: int| 0 <= k < i ==> mapped@[k] == canon(s)[k],
        decreases s.len() - i,
    {
        let v = list[i];
        proof {
            lemma_seen_distinct(s, i as int);
            lemma_seen_prefix_len(s, i as int);
        }
        match find_rank(&seen, v) {
            Some(j) => {
                proof {
                    assert(seen_prefix(s, i + 1) == seen_prefix(s, i as int));
                    lemma_rank_in_is(seen_prefix(s, i + 1), v, j as int);
                }
                mapped.push(j);
            },
            None => {
                let rank = seen.len();
                proof {
                    assert(seen_prefix(s, i + 1) == seen_prefix(s, i as int).push(v));
                    lemma_seen_distinct(s, i + 1);
                    lemma_rank_in_is(seen_prefix(s, i + 1), v, rank as int);
                }
                mapped.push(rank);
                seen.push(v);
            },
        }
        i += 1;
    }
    proof {
        assert(mapped@ =~= canon(s));
    }
    mapped
}

/// Map a list of identifiers to its canonical form: each identifier becomes
/// the rank of its value's first occurrence.
pub fn map_ident(list: &Vec<Ident>) -> (r: Vec<usize>)
    ensures
        r@ == canon(list@.map_values(|d: Ident| d.0)),
{
    let mut raw: Vec<usize> = Vec::new();
    let mut i: usize = 0;
    while i < list.len()
        invariant
            0 <= i <= list@.len(),
            raw@.len() == i,
            forall|k: int| 0 <= k < i ==> raw@[k] == list@[k].0,
        decreases list@.len() - i,
    {
        raw.push(list[i].0);
        i += 1;
    }
    proof {
        assert(raw@ =~= list@.map_values(|d: Ident| d.0));
    }
    canonicalize(&raw)
}

/// Compare two canonical vectors for equality.
fn vec_eq_usize(a: &Vec<usize>, b: &Vec<usize>) -> (r: bool)
    ensures
        r == (a@ == b@),
{
    if a.len() != b.len() {
        return false;
    }
    let mut i: usize = 0;
    while i < a.len()
        invariant
            0 <= i <= a@.len(),
            a@.len() == b@.len(),
            forall|k: int| 0 <= k < i ==> a@[k] == b@[k],
        decreases a@.len() - i,
    {
        if a[i] != b[i] {
            return false;
        }
        i += 1;
    }
    proof {
        assert(a@ =~= b@);
    }
    true
}

/// Count the occurrences of `v`.
fn count_vec(x: &Vec<usize>, v: usize) -> (n: usize)
    ensures
        n as nat == count_of(x@, v),
{
    proof {
        lemma_count_le_len(x@, v);
    }
    let mut n: usize = 0;
    let mut i: usize = 0;
    while i < x.len()
        invariant
            0 <= i <= x@.len(),
            n as nat == count_of(x@.subrange(0, i as int), v),
            n <= i,
        decreases x@.len() - i,
    {
        proof {
            assert(x@.subrange(0, i + 1).drop_last() =~= x@.subrange(0, i as int));
            assert(x@.subrange(0, i + 1).last() == x@[i as int]);
        }
        if x[i] == v {
            n += 1;
        }
        i += 1;
    }
    proof {
        assert(x@.subrange(0, x@.len() as int) =~= x@);
    }
    n
}

/// A value's count never exceeds the sequence length.
proof fn lemma_count_le_len(s: Seq<usize>, v: usize)
    ensures
        count_of(s, v) <= s.len(),
    decreases s.len(),
{
    if s.len() > 0 {
        lemma_count_le_len(s.drop_last(), v);
    }
}

/// A value occurs in a sequence exactly when its count is positive.
proof fn lemma_count_contains(s: Seq<usize>, v: usize)
    ensures
        (count_of(s, v) > 0) == s.contains(v),
    decreases s.len(),
{
    if s.len() > 0 {
        lemma_count_contains(s.drop_last(), v);
        if s.contains(v) {
            let j = choose|j: int| 0 <= j < s.len() && s[j] == v;
            if j < s.len() - 1 {
                assert(s.drop_last()[j] == v);
                assert(s.drop_last().contains(v));
            }
        }
        if s.drop_last().contains(v) {
            let j = choose|j: int| 0 <= j < s.drop_last().len() && s.drop_last()[j] == v;
            assert(s[j] == v);
        }
    }
}

/// An ordered list of identifiers: matches when the canonical forms agree,
/// replaced wholesale on update.  The canonical form is recomputed for each
/// comparison and never stored.
#[derive(Debug)]
pub struct IdentList(pub Vec<usize>);

impl Clone for IdentList {
    fn clone(&self) -> (r: Self)
        ensures
            r.0@ == self.0@,
    {
        IdentList(self.0.clone())
    }
}

impl AbstractState for IdentList {
    open spec fn matches_spec(&self, other: &Self) -> bool {
        ident_seq_matches(self.0@, other.0@)
    }

    open spec fn updated(&self, other: &Self, next: &Self) -> bool {
        next.0@ == other.0@
    }

    fn matches(&self, other: &Self) -> (r: bool) {
        let ca = canonicalize(&self.0);
        let cb = canonicalize(&other.0);
        vec_eq_usize(&ca, &cb)
    }

    fn update(&mut self, other: &Self) {
        self.0 = other.0.clone();
    }

    proof fn lemma_matches_reflexive(&self) {
    }

    proof fn lemma_updated_matches(&self, other: &Self, next: &Self) {
    }

    proof fn lemma_cloned_matches(a: &Self, b: &Self) {
    }
}

/// An unordered set of identifiers: matches when the canonical forms hold
/// the same ranks with the same multiplicities, replaced wholesale on
/// update.
#[derive(Debug)]
pub struct IdentSet(pub Vec<usize>);

impl Clone for IdentSet {
    fn clone(&self) -> (r: Self)
        ensures
            r.0@ == self.0@,
    {
        IdentSet(self.0.clone())
    }
}

impl AbstractState for IdentSet {
    open spec fn matches_spec(&self, other: &Self) -> bool {
        ident_set_matches(self.0@, other.0@)
    }

    open spec fn updated(&self, other: &Self, next: &Self) -> bool {
        next.0@ == other.0@
    }

    fn matches(&self, other: &Self) -> (r: bool) {
        if self.0.len() != other.0.len() {
            return false;
        }
        let ca = canonicalize(&self.0);
        let cb = canonicalize(&other.0);
        let mut i: usize = 0;
        while i < ca.len()
            invariant
                0 <= i <= ca@.len(),
                ca@ == canon(self.0@),
                cb@ == canon(other.0@),
                forall|k: int| 0 <= k < i ==> count_of(ca@, #[trigger] ca@[k]) == count_of(
                    cb@,
                    ca@[k],
                ),
            decreases ca@.len() - i,
        {
            let v = ca[i];
            if count_vec(&ca, v) != count_vec(&cb, v) {
                return false;
            }
            i += 1;
        }
        let mut j: usize = 0;
        while j < cb.len()
            invariant
                0 <= j <= cb@.len(),
                ca@ == canon(self.0@),
                cb@ == canon(other.0@),
                forall|k: int| 0 <= k < ca@.len() ==> count_of(ca@, #[trigger] ca@[k]) == count_of(
                    cb@,
                    ca@[k],
                ),
                forall|k: int| 0 <= k < j ==> count_of(ca@, #[trigger] cb@[k]) == count_of(
                    cb@,
                    cb@[k],
                ),
            decreases cb@.len() - j,
        {
            let v = cb[j];
            if count_vec(&ca, v) != count_vec(&cb, v) {
                return false;
            }
            j += 1;
        }
        proof {
            assert forall|v: usize| count_of(ca@, v) == count_of(cb@, v) by {
                lemma_count_contains(ca@, v);
                lemma_count_contains(cb@, v);
                if ca@.contains(v) {
                    let k = choose|k: int| 0 <= k < ca@.len() && ca@[k] == v;
                    assert(count_of(ca@, ca@[k]) == count_of(cb@, ca@[k]));
                } else if cb@.contains(v) {
                    let k = choose|k: int| 0 <= k < cb@.len() && cb@[k] == v;
                    assert(count_of(ca@, cb@[k]) == count_of(cb@, cb@[k]));
                }
            }
        }
        true
    }

    fn update(&mut self, other: &Self) {
        self.0 = other.0.clone();
    }

    proof fn lemma_matches_reflexive(&self) {
    }

    proof fn lemma_updated_matches(&self, other: &Self, next: &Self) {
    }

    proof fn lemma_cloned_matches(a: &Self, b: &Self) {
    }
}

} // verus!
