//! The comparison/merge algebra on concrete values.

use km_checker::state::{Ignored, Unmatched, Value, ValueList, ValueMap, ValueSet};
use km_checker::AbstractState;

#[test]
fn scalar_matches_equality() {
    assert!(5u64.matches(&5u64));
    assert!(!5u64.matches(&6u64));
    assert!(true.matches(&true));
    assert!(!true.matches(&false));
    assert!('x'.matches(&'x'));
    assert!("abc".to_string().matches(&"abc".to_string()));
    assert!(!"abc".to_string().matches(&"abd".to_string()));
}

#[test]
fn scalar_update_assigns() {
    let mut a = 3usize;
    a.update(&9);
    assert_eq!(a, 9);
    let mut s = "old".to_string();
    s.update(&"new".to_string());
    assert_eq!(s, "new");
}

#[test]
fn value_update_then_matches() {
    let mut a = Value(1u64);
    let b = Value(5u64);
    a.update(&b);
    assert!(a.matches(&b));
    assert_eq!(a.0, 5);
}

#[test]
fn value_list_matches_in_order() {
    let a = ValueList(vec![1u64, 2, 3]);
    let b = ValueList(vec![1u64, 2, 3]);
    let c = ValueList(vec![3u64, 2, 1]);
    let d = ValueList(vec![1u64, 2]);
    assert!(a.matches(&b));
    assert!(!a.matches(&c));
    assert!(!a.matches(&d));
}

#[test]
fn value_list_update_then_matches() {
    let mut a = ValueList(vec![1u64, 2]);
    let b = ValueList(vec![7u64]);
    a.update(&b);
    assert!(a.matches(&b));
    assert_eq!(a.0, vec![7u64]);
}

#[test]
fn value_set_unordered() {
    let a = ValueSet(vec![1u64, 2]);
    let b = ValueSet(vec![2u64, 1]);
    assert!(a.matches(&b));
    let c = ValueSet(vec![1u64]);
    assert!(!a.matches(&c));
}

#[test]
fn value_set_counterparts_not_consumed() {
    // The documented looseness: counterparts are shared, not consumed,
    // and the relation is not symmetric.
    let a = ValueSet(vec![1u64, 1]);
    let b = ValueSet(vec![1u64, 2]);
    assert!(a.matches(&b));
    assert!(!b.matches(&a));
}

#[test]
fn value_set_update_then_matches() {
    let mut a = ValueSet(vec![1u64, 2, 3]);
    let b = ValueSet(vec![9u64, 8]);
    a.update(&b);
    assert!(a.matches(&b));
}

#[test]
fn value_map_matches_by_key() {
    let a = ValueMap(vec![(1usize, 10u64), (2usize, 20u64)]);
    let b = ValueMap(vec![(2usize, 20u64), (1usize, 10u64)]);
    assert!(a.matches(&b));
    let c = ValueMap(vec![(1usize, 11u64), (2usize, 20u64)]);
    assert!(!a.matches(&c));
    let d = ValueMap(vec![(1usize, 10u64)]);
    assert!(!a.matches(&d));
}

#[test]
fn value_map_update_then_matches() {
    let mut a = ValueMap(vec![(1usize, 10u64)]);
    let b = ValueMap(vec![(3usize, 30u64), (4usize, 40u64)]);
    a.update(&b);
    assert!(a.matches(&b));
}

#[test]
fn ignored_never_mismatches_never_updates() {
    let mut a = Ignored(7u64);
    let b = Ignored(9u64);
    assert!(a.matches(&b));
    a.update(&b);
    assert_eq!(a.0, 7);
}

#[test]
fn unmatched_always_matches() {
    let mut a = Unmatched(1u64);
    let b = Unmatched(2u64);
    assert!(a.matches(&b));
    a.update(&b);
    assert_eq!(a.0, 1);
}

#[test]
fn option_matches_and_update() {
    let mut a: Option<u64> = Some(1);
    let b: Option<u64> = Some(2);
    assert!(!a.matches(&b));
    a.update(&b);
    assert!(a.matches(&b));
    assert_eq!(a, Some(2));

    let mut c: Option<u64> = None;
    assert!(!c.matches(&b));
    c.update(&b);
    assert_eq!(c, Some(2));

    let mut d: Option<u64> = Some(5);
    let none: Option<u64> = None;
    d.update(&none);
    assert_eq!(d, None);
    assert!(d.matches(&none));
}
