//! A generic two-component value type with componentwise addition,
//! in-place addition, negation, and (possibly partial) equality.
//!
//! The element type is abstracted by [`AlgebraicElement`], which pairs each
//! executable operation with a specification function and, for the partial
//! operations, a predicate saying on which operands the operation is defined.
//! Equality is deliberately not assumed to be reflexive: an element type may
//! model values that do not compare equal to themselves, and the pair type
//! propagates that behaviour componentwise.

use vstd::prelude::*;

verus! {

/// The capability set a component type must offer: addition, negation, and
/// equality (with an independently specified disequality, so that a partial
/// equality need not force `ne` to be the plain negation of `eq`).
pub trait AlgebraicElement: Sized + Copy {
    /// The mathematical result of adding `rhs` to `self`.
    spec fn add_spec(self, rhs: Self) -> Self;

    /// Whether the executable addition is defined on these operands
    /// (for machine integers: whether the sum fits).
    spec fn add_ok(self, rhs: Self) -> bool;

    /// The mathematical result of negating `self`.
    spec fn neg_spec(self) -> Self;

    /// Whether the executable negation is defined on this operand.
    spec fn neg_ok(self) -> bool;

    /// What the element's equality test returns. Not assumed reflexive.
    spec fn eq_spec(self, rhs: Self) -> bool;

    /// What the element's disequality test returns. Not assumed to be the
    /// negation of `eq_spec`.
    spec fn ne_spec(self, rhs: Self) -> bool;

    fn add_el(self, rhs: Self) -> (r: Self)
        requires
            self.add_ok(rhs),
        ensures
            r == self.add_spec(rhs),
    ;

    fn neg_el(self) -> (r: Self)
        requires
            self.neg_ok(),
        ensures
            r == self.neg_spec(),
    ;

    fn eq_el(self, rhs: Self) -> (r: bool)
        ensures
            r == self.eq_spec(rhs),
    ;

    fn ne_el(self, rhs: Self) -> (r: bool)
        ensures
            r == self.ne_spec(rhs),
    ;
}

/// A value made of two components of one element type.
#[derive(Debug, Clone, Copy)]
pub struct AlgebraicPair<T> {
    pub first: T,
    pub second: T,
}

impl<T: AlgebraicElement> AlgebraicPair<T> {
    /// Componentwise addition at the specification level.
    pub open spec fn add_spec(self, rhs: Self) -> Self {
        AlgebraicPair { first: self.first.add_spec(rhs.first), second: self.second.add_spec(rhs.second) }
    }

    /// Both component additions are defined.
    pub open spec fn add_ok(self, rhs: Self) -> bool {
        self.first.add_ok(rhs.first) && self.second.add_ok(rhs.second)
    }

    /// Componentwise negation at the specification level.
    pub open spec fn neg_spec(self) -> Self {
        AlgebraicPair { first: self.first.neg_spec(), second: self.second.neg_spec() }
    }

    /// Both component negations are defined.
    pub open spec fn neg_ok(self) -> bool {
        self.first.neg_ok() && self.second.neg_ok()
    }

    /// Componentwise equality: both `first` fields agree and both `second`
    /// fields agree, each under the element type's own equality.
    pub open spec fn eq_spec(self, rhs: Self) -> bool {
        self.first.eq_spec(rhs.first) && self.second.eq_spec(rhs.second)
    }

    /// Componentwise disequality: some matching pair of fields differs under
    /// the element type's own disequality.
    pub open spec fn ne_spec(self, rhs: Self) -> bool {
        self.first.ne_spec(rhs.first) || self.second.ne_spec(rhs.second)
    }

    /// Plain constructor; no validation.
    pub fn new(first: T, second: T) -> (r: Self)
        ensures
            r.first == first,
            r.second == second,
    {
        AlgebraicPair { first, second }
    }

    /// Componentwise addition. The result keeps the element type `T`.
    pub fn add(self, rhs: Self) -> (r: Self)
        requires
            self.add_ok(rhs),
        ensures
            r == self.add_spec(rhs),
    {
        AlgebraicPair { first: self.first.add_el(rhs.first), second: self.second.add_el(rhs.second) }
    }

    /// In-place componentwise addition; the mutation is the sole effect.
    pub fn add_assign(&mut self, rhs: Self)
        requires
            old(self).add_ok(rhs),
        ensures
            *final(self) == old(self).add_spec(rhs),
    {
        self.first = self.first.add_el(rhs.first);
        self.second = self.second.add_el(rhs.second);
    }

    /// Componentwise negation, non-mutating.
    pub fn negate(self) -> (r: Self)
        requires
            self.neg_ok(),
        ensures
            r == self.neg_spec(),
    {
        AlgebraicPair { first: self.first.neg_el(), second: self.second.neg_el() }
    }

    /// True iff the `first` components are equal and the `second` components
    /// are equal, each under the element type's equality.
    pub fn equals(self, rhs: Self) -> (r: bool)
        ensures
            r == self.eq_spec(rhs),
    {
        self.first.eq_el(rhs.first) && self.second.eq_el(rhs.second)
    }

    /// True iff some matching component differs under the element type's
    /// disequality. Defined componentwise in its own right, not as the
    /// negation of [`Self::equals`], so that partial element equalities keep
    /// their own disequality behaviour.
    pub fn not_equals(self, rhs: Self) -> (r: bool)
        ensures
            r == self.ne_spec(rhs),
    {
        self.first.ne_el(rhs.first) || self.second.ne_el(rhs.second)
    }
}

/// Law: when the element addition is commutative, pair addition is
/// commutative as well.
pub proof fn lemma_add_commutative<T: AlgebraicElement>(a: AlgebraicPair<T>, b: AlgebraicPair<T>)
    requires
        forall|x: T, y: T| #[trigger] x.add_spec(y) == y.add_spec(x),
    ensures
        a.add_spec(b) == b.add_spec(a),
{
    assert(a.first.add_spec(b.first) == b.first.add_spec(a.first));
    assert(a.second.add_spec(b.second) == b.second.add_spec(a.second));
}

/// Law: when the element negation is its own inverse, negating a pair twice
/// gives back the original pair.
pub proof fn lemma_negate_involutive<T: AlgebraicElement>(a: AlgebraicPair<T>)
    requires
        forall|x: T| #[trigger] x.neg_spec().neg_spec() == x,
    ensures
        a.neg_spec().neg_spec() == a,
{
    assert(a.first.neg_spec().neg_spec() == a.first);
    assert(a.second.neg_spec().neg_spec() == a.second);
}

/// Law: when the element disequality is the plain negation of the element
/// equality (a total equality), pair disequality is the plain negation of
/// pair equality.
pub proof fn lemma_not_equals_negates_equals<T: AlgebraicElement>(
    a: AlgebraicPair<T>,
    b: AlgebraicPair<T>,
)
    requires
        forall|x: T, y: T| #[trigger] x.ne_spec(y) == !x.eq_spec(y),
    ensures
        a.ne_spec(b) == !a.eq_spec(b),
{
    assert(a.first.ne_spec(b.first) == !a.first.eq_spec(b.first));
    assert(a.second.ne_spec(b.second) == !a.second.eq_spec(b.second));
}

/// Law: a component that is not equal to itself makes the whole pair not
/// equal to itself — partial element equality propagates to the pair.
pub proof fn lemma_partial_equality_propagates<T: AlgebraicElement>(a: AlgebraicPair<T>)
    requires
        !a.first.eq_spec(a.first) || !a.second.eq_spec(a.second),
    ensures
        !a.eq_spec(a),
{
}

impl AlgebraicElement for i64 {
    open spec fn add_spec(self, rhs: Self) -> Self {
        (self + rhs) as i64
    }

    open spec fn add_ok(self, rhs: Self) -> bool {
        i64::MIN <= self + rhs <= i64::MAX
    }

    open spec fn neg_spec(self) -> Self {
        (-self) as i64
    }

    open spec fn neg_ok(self) -> bool {
        self != i64::MIN
    }

    open spec fn eq_spec(self, rhs: Self) -> bool {
        self == rhs
    }

    open spec fn ne_spec(self, rhs: Self) -> bool {
        self != rhs
    }

    fn add_el(self, rhs: Self) -> (r: Self) {
        self + rhs
    }

    fn neg_el(self) -> (r: Self) {
        -self
    }

    fn eq_el(self, rhs: Self) -> (r: bool) {
        self == rhs
    }

    fn ne_el(self, rhs: Self) -> (r: bool) {
        self != rhs
    }
}

/// A scalar with a possibly undefined value, modelling element types whose
/// equality is partial: an undefined value compares unequal to everything,
/// itself included, the way a floating-point not-a-number does.
#[derive(Debug, Clone, Copy)]
pub struct PartialScalar {
    pub value: i64,
    /// False for the not-a-number-like values.
    pub defined: bool,
}

impl AlgebraicElement for PartialScalar {
    /// Addition adds the values; an undefined operand makes the sum undefined.
    open spec fn add_spec(self, rhs: Self) -> Self {
        PartialScalar { value: (self.value + rhs.value) as i64, defined: self.defined && rhs.defined }
    }

    open spec fn add_ok(self, rhs: Self) -> bool {
        i64::MIN <= self.value + rhs.value <= i64::MAX
    }

    open spec fn neg_spec(self) -> Self {
        PartialScalar { value: (-self.value) as i64, defined: self.defined }
    }

    open spec fn neg_ok(self) -> bool {
        self.value != i64::MIN
    }

    /// Equal only when both operands are defined and carry the same value;
    /// in particular an undefined scalar is not equal to itself.
    open spec fn eq_spec(self, rhs: Self) -> bool {
        self.defined && rhs.defined && self.value == rhs.value
    }

    open spec fn ne_spec(self, rhs: Self) -> bool {
        !(self.defined && rhs.defined && self.value == rhs.value)
    }

    fn add_el(self, rhs: Self) -> (r: Self) {
        PartialScalar { value: self.value + rhs.value, defined: self.defined && rhs.defined }
    }

    fn neg_el(self) -> (r: Self) {
        PartialScalar { value: -self.value, defined: self.defined }
    }

    fn eq_el(self, rhs: Self) -> (r: bool) {
        self.defined && rhs.defined && self.value == rhs.value
    }

    fn ne_el(self, rhs: Self) -> (r: bool) {
        !(self.defined && rhs.defined && self.value == rhs.value)
    }
}

} // verus!
