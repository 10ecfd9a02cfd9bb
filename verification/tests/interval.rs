//! Interval arithmetic on half-open bound pairs.

use km_checker::state::Interval;
use km_checker::AbstractState;

#[test]
fn interval_overlap_intersect_subtract() {
    let a = Interval::new(0, 10, 0u64);
    let b = Interval::new(5, 15, 0u64);
    assert!(a.overlaps(&b));
    assert!(b.overlaps(&a));
    let i = a.intersect(&b).unwrap();
    assert_eq!(i.left, 5);
    assert_eq!(i.right, 10);
    let parts = a.subtract(&b);
    assert_eq!(parts.len(), 1);
    assert_eq!(parts[0].left, 0);
    assert_eq!(parts[0].right, 5);
}

#[test]
fn interval_contains_half_open() {
    let a = Interval::new(2, 5, 0u64);
    assert!(!a.contains(1));
    assert!(a.contains(2));
    assert!(a.contains(4));
    assert!(!a.contains(5));
}

#[test]
fn interval_covers_is_strict() {
    let outer = Interval::new(0, 10, 0u64);
    let inner = Interval::new(1, 9, 0u64);
    assert!(outer.covers(&inner));
    assert!(!outer.covers(&outer.clone()));
    let flush = Interval::new(0, 9, 0u64);
    assert!(!outer.covers(&flush));
}

#[test]
fn interval_disjoint_has_no_intersection() {
    let a = Interval::new(0, 4, 0u64);
    let b = Interval::new(4, 8, 0u64);
    assert!(!a.overlaps(&b));
    assert!(a.intersect(&b).is_none());
    let parts = a.subtract(&b);
    assert_eq!(parts.len(), 1);
    assert_eq!(parts[0].left, 0);
    assert_eq!(parts[0].right, 4);
}

#[test]
fn interval_subtract_middle_gives_two_fragments() {
    let a = Interval::new(0, 10, 7u64);
    let b = Interval::new(3, 6, 0u64);
    let parts = a.subtract(&b);
    assert_eq!(parts.len(), 2);
    assert_eq!((parts[0].left, parts[0].right), (0, 3));
    assert_eq!((parts[1].left, parts[1].right), (6, 10));
    assert_eq!(parts[0].value, 7);
    assert_eq!(parts[1].value, 7);
}

#[test]
fn interval_subtract_covering_gives_nothing() {
    let a = Interval::new(3, 6, 0u64);
    let b = Interval::new(0, 10, 0u64);
    let parts = a.subtract(&b);
    assert_eq!(parts.len(), 0);
}

#[test]
fn interval_matches_bounds_and_payload() {
    let mut a = Interval::new(0, 4, 1u64);
    let b = Interval::new(0, 4, 1u64);
    assert!(a.matches(&b));
    let c = Interval::new(0, 5, 1u64);
    assert!(!a.matches(&c));
    let d = Interval::new(0, 4, 2u64);
    assert!(!a.matches(&d));
    a.update(&d);
    assert!(a.matches(&d));
}
