//! Relabeled-identifier collections: matching is invariant under the
//! concrete identifier values.

use km_checker::state::{Ident, IdentList, IdentSet, map_ident};
use km_checker::AbstractState;

#[test]
fn ident_always_matches() {
    let a = Ident(1);
    let b = Ident(999);
    assert!(a.matches(&b));
}

#[test]
fn map_ident_first_occurrence_ranks() {
    let list = vec![Ident(5), Ident(7), Ident(5), Ident(9)];
    assert_eq!(map_ident(&list), vec![0, 1, 0, 2]);
    let empty: Vec<Ident> = vec![];
    assert_eq!(map_ident(&empty), Vec::<usize>::new());
}

#[test]
fn ident_list_relabeling() {
    // The same repetition pattern under different concrete values matches.
    let a = IdentList(vec![1, 2, 1]);
    let b = IdentList(vec![101, 102, 101]);
    assert!(a.matches(&b));
    // A different pattern of the same length does not.
    let c = IdentList(vec![101, 101, 102]);
    assert!(!a.matches(&c));
    // Different lengths never match.
    let d = IdentList(vec![1, 2]);
    assert!(!a.matches(&d));
}

#[test]
fn ident_list_update_then_matches() {
    let mut a = IdentList(vec![1, 2]);
    let b = IdentList(vec![400, 500, 400]);
    a.update(&b);
    assert!(a.matches(&b));
    assert_eq!(a.0, vec![400, 500, 400]);
}

#[test]
fn ident_set_ignores_order_of_ranks() {
    // [1,2,2,1] relabels to [0,1,1,0]; [1,1,2,2] relabels to [0,0,1,1]:
    // as ordered lists they differ, as sets the rank counts agree.
    let a = IdentList(vec![1, 2, 2, 1]);
    let b = IdentList(vec![1, 1, 2, 2]);
    assert!(!a.matches(&b));
    let sa = IdentSet(vec![1, 2, 2, 1]);
    let sb = IdentSet(vec![1, 1, 2, 2]);
    assert!(sa.matches(&sb));
}

#[test]
fn ident_set_counts_must_agree() {
    // [1,2,2] relabels to [0,1,1]; [9,9,4] relabels to [0,0,1]: the rank
    // multiplicities differ.
    let a = IdentSet(vec![1, 2, 2]);
    let b = IdentSet(vec![9, 9, 4]);
    assert!(!a.matches(&b));
    let c = IdentSet(vec![7, 3, 3]);
    assert!(a.matches(&c));
    let d = IdentSet(vec![1, 2]);
    assert!(!a.matches(&d));
}

#[test]
fn ident_set_update_then_matches() {
    let mut a = IdentSet(vec![1]);
    let b = IdentSet(vec![8, 8, 9]);
    a.update(&b);
    assert!(a.matches(&b));
}
