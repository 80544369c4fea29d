use algebra_core::pair::{AlgebraicElement, AlgebraicPair, PartialScalar};

#[test]
fn add_is_componentwise() {
    let a = AlgebraicPair::<i64>::new(1, 2);
    let b = AlgebraicPair::<i64>::new(3, 4);
    let c = a.add(b);
    assert_eq!(c.first, 4);
    assert_eq!(c.second, 6);
}

#[test]
fn add_commutes_on_integers() {
    let a = AlgebraicPair::<i64>::new(7, -3);
    let b = AlgebraicPair::<i64>::new(10, 20);
    let left = a.add(b);
    let right = b.add(a);
    assert!(left.equals(right));
}

#[test]
fn add_keeps_the_element_type() {
    let ints = AlgebraicPair::<i64>::new(1, 2).add(AlgebraicPair::new(3, 4));
    let _typed: AlgebraicPair<i64> = ints;
    let p = PartialScalar { value: 1, defined: true };
    let q = PartialScalar { value: 2, defined: true };
    let scalars = AlgebraicPair::new(p, q).add(AlgebraicPair::new(q, p));
    let _typed2: AlgebraicPair<PartialScalar> = scalars;
    assert_eq!(scalars.first.value, 3);
    assert_eq!(scalars.second.value, 3);
}

#[test]
fn add_assign_matches_add() {
    let before = AlgebraicPair::<i64>::new(1, 2);
    let b = AlgebraicPair::<i64>::new(30, 40);
    let mut a = before;
    a.add_assign(b);
    assert!(a.equals(before.add(b)));
    assert_eq!(a.first, 31);
    assert_eq!(a.second, 42);
}

#[test]
fn negate_twice_is_identity() {
    let a = AlgebraicPair::<i64>::new(5, -9);
    let back = a.negate().negate();
    assert!(back.equals(a));
    assert_eq!(back.first, 5);
    assert_eq!(back.second, -9);
}

#[test]
fn negate_is_componentwise() {
    let a = AlgebraicPair::<i64>::new(5, -9);
    let n = a.negate();
    assert_eq!(n.first, -5);
    assert_eq!(n.second, 9);
}

#[test]
fn equals_is_componentwise() {
    let a = AlgebraicPair::<i64>::new(1, 2);
    assert!(a.equals(AlgebraicPair::new(1, 2)));
    assert!(!a.equals(AlgebraicPair::new(1, 3)));
    assert!(!a.equals(AlgebraicPair::new(2, 2)));
}

#[test]
fn not_equals_negates_equals_on_integers() {
    let a = AlgebraicPair::<i64>::new(1, 2);
    assert!(!a.not_equals(AlgebraicPair::new(1, 2)));
    assert!(a.not_equals(AlgebraicPair::new(1, 3)));
    assert!(a.not_equals(AlgebraicPair::new(0, 2)));
}

#[test]
fn partial_equality_is_not_reflexive() {
    let undefined = PartialScalar { value: 0, defined: false };
    let one = PartialScalar { value: 1, defined: true };
    assert!(!undefined.eq_el(undefined));
    let a = AlgebraicPair::new(one, undefined);
    assert!(!a.equals(a));
    assert!(a.not_equals(a));
    let b = AlgebraicPair::new(one, one);
    assert!(b.equals(b));
    assert!(!b.not_equals(b));
}

#[test]
fn undefined_scalars_propagate_through_addition() {
    let undefined = PartialScalar { value: 4, defined: false };
    let one = PartialScalar { value: 1, defined: true };
    let sum = AlgebraicPair::new(one, undefined).add(AlgebraicPair::new(one, one));
    assert!(sum.first.defined);
    assert!(!sum.second.defined);
}
