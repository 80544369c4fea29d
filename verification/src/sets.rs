//! Set algebra over collections of unique elements.
//!
//! A [`FiniteSet`] stores its elements in a vector that is kept free of
//! duplicates; its mathematical view is the [`Set`] of its elements, and the
//! iteration order is the insertion order. The element type is abstracted by
//! [`SetElement`], the capability set needed for uniqueness testing: an
//! executable equality that decides the mathematical one, and an executable
//! copy.
//!
//! The binary operations are free functions over two same-typed sets, as are
//! the proved algebraic laws about them.

use vstd::prelude::*;
use vstd::seq_lib::group_seq_properties;

verus! {

broadcast use group_seq_properties;

/// What an element type must offer: a decidable equality and a copy.
pub trait SetElement: Sized {
    /// Decides mathematical equality of two elements.
    fn eq_el(&self, other: &Self) -> (r: bool)
        ensures
            r == (*self == *other),
    ;

    /// An exact copy of the element.
    fn clone_el(&self) -> (r: Self)
        ensures
            r == *self,
    ;
}

impl SetElement for i64 {
    fn eq_el(&self, other: &Self) -> (r: bool) {
        *self == *other
    }

    fn clone_el(&self) -> (r: Self) {
        *self
    }
}

/// A finite set of unique elements, iterated in insertion order.
pub struct FiniteSet<E: SetElement> {
    items: Vec<E>,
}

impl<E: SetElement> View for FiniteSet<E> {
    type V = Set<E>;

    closed spec fn view(&self) -> Set<E> {
        self.items@.to_set()
    }
}

/// Pushing a fresh element onto a duplicate-free sequence keeps it
/// duplicate-free.
proof fn lemma_push_keeps_no_duplicates<E>(s: Seq<E>, e: E)
    requires
        s.no_duplicates(),
        !s.contains(e),
    ensures
        s.push(e).no_duplicates(),
{
    let t = s.push(e);
    assert forall|p: int, q: int|
        0 <= p < t.len() && 0 <= q < t.len() && p != q implies t[p] != t[q] by {
        if p < s.len() && q < s.len() {
            assert(s[p] != s[q]);
        } else if q == s.len() && p < s.len() {
            if s[p] == e {
                assert(s.contains(e));
            }
        } else if p == s.len() && q < s.len() {
            if s[q] == e {
                assert(s.contains(e));
            }
        }
    }
}

impl<E: SetElement> FiniteSet<E> {
    /// The uniqueness invariant: no element is stored twice.
    pub closed spec fn wf(&self) -> bool {
        self.items@.no_duplicates()
    }

    /// The empty set.
    pub fn new() -> (r: Self)
        ensures
            r.wf(),
            r@ == Set::<E>::empty(),
    {
        let r = FiniteSet { items: Vec::new() };
        proof {
            assert(r@ =~= Set::<E>::empty());
        }
        r
    }

    /// The index of `x` in the backing vector, if it is present.
    fn find_index(&self, x: &E) -> (r: Option<usize>)
        ensures
            match r {
                Some(i) => i < self.items@.len() && self.items@[i as int] == *x,
                None => !self.items@.contains(*x),
            },
    {
        let mut i: usize = 0;
        while i < self.items.len()
            invariant
                i <= self.items@.len(),
                forall|k: int| 0 <= k < i ==> self.items@[k] != *x,
            decreases self.items@.len() - i,
        {
            if self.items[i].eq_el(x) {
                return Some(i);
            }
            i += 1;
        }
        None
    }

    /// Membership test.
    pub fn contains(&self, x: &E) -> (r: bool)
        ensures
            r == self@.contains(*x),
    {
        match self.find_index(x) {
            Some(i) => {
                proof {
                    assert(self.items@.contains(*x));
                }
                true
            },
            None => false,
        }
    }

    /// The number of elements.
    pub fn len(&self) -> (n: usize)
        requires
            self.wf(),
        ensures
            n == self@.len(),
    {
        proof {
            self.items@.unique_seq_to_set();
        }
        self.items.len()
    }

    /// Adds `x` unless it is already present; reports whether it was newly
    /// added. A set that already holds the element is left unchanged.
    pub fn insert(&mut self, x: E) -> (added: bool)
        requires
            old(self).wf(),
        ensures
            final(self).wf(),
            added == !old(self)@.contains(x),
            final(self)@ == old(self)@.insert(x),
    {
        if self.contains(&x) {
            proof {
                assert(old(self)@.insert(x) =~= old(self)@);
            }
            false
        } else {
            proof {
                lemma_push_keeps_no_duplicates(self.items@, x);
                self.items@.lemma_push_to_set_commute(x);
            }
            self.items.push(x);
            true
        }
    }

    /// Removes `x` if it is present; reports whether it was. A set that does
    /// not hold the element is left unchanged.
    pub fn remove(&mut self, x: &E) -> (removed: bool)
        requires
            old(self).wf(),
        ensures
            final(self).wf(),
            removed == old(self)@.contains(*x),
            final(self)@ == old(self)@.remove(*x),
    {
        let ghost s = self.items@;
        match self.find_index(x) {
            Some(i) => {
                proof {
                    assert(s.contains(*x));
                }
                self.items.remove(i);
                proof {
                    s.remove_ensures(i as int);
                    let t = self.items@;
                    assert(t == s.remove(i as int));
                    assert forall|p: int, q: int|
                        0 <= p < t.len() && 0 <= q < t.len() && p != q implies t[p] != t[q] by {
                        let p2: int = if p < i { p } else { p + 1 };
                        let q2: int = if q < i { q } else { q + 1 };
                        assert(t[p] == s[p2]);
                        assert(t[q] == s[q2]);
                        assert(s[p2] != s[q2]);
                    }
                    assert forall|a: E| #[trigger] t.contains(a) implies s.contains(a) && a != *x by {
                        let k = choose|k: int| 0 <= k < t.len() && t[k] == a;
                        let k2: int = if k < i { k } else { k + 1 };
                        assert(t[k] == s[k2]);
                        assert(s.contains(a));
                        assert(k2 != i);
                        assert(s[k2] != s[i as int]);
                    }
                    assert forall|a: E| s.contains(a) && a != *x implies #[trigger] t.contains(a) by {
                        let k = choose|k: int| 0 <= k < s.len() && s[k] == a;
                        assert(k != i);
                        if k < i {
                            assert(t[k] == s[k]);
                            assert(t.contains(a));
                        } else {
                            assert(t[k - 1] == s[k]);
                            assert(t.contains(a));
                        }
                    }
                    assert(final(self)@ =~= old(self)@.remove(*x));
                }
                true
            },
            None => {
                proof {
                    assert(old(self)@.remove(*x) =~= old(self)@);
                }
                false
            },
        }
    }

    /// The elements as a vector, each exactly once.
    pub fn elements(&self) -> (r: Vec<E>)
        requires
            self.wf(),
        ensures
            r@.no_duplicates(),
            r@.to_set() == self@,
    {
        let copy = self.duplicate();
        copy.items
    }

    /// An element-by-element copy.
    pub fn duplicate(&self) -> (r: Self)
        requires
            self.wf(),
        ensures
            r.wf(),
            r@ == self@,
    {
        let mut items: Vec<E> = Vec::new();
        let mut i: usize = 0;
        while i < self.items.len()
            invariant
                i <= self.items@.len(),
                items@ == self.items@.subrange(0, i as int),
            decreases self.items@.len() - i,
        {
            items.push(self.items[i].clone_el());
            proof {
                assert(items@ =~= self.items@.subrange(0, i + 1));
            }
            i += 1;
        }
        proof {
            assert(items@ =~= self.items@);
        }
        FiniteSet { items }
    }
}

/// True iff every element of `a` is in `b`.
pub fn is_subset<E: SetElement>(a: &FiniteSet<E>, b: &FiniteSet<E>) -> (r: bool)
    ensures
        r == a@.subset_of(b@),
{
    let mut i: usize = 0;
    while i < a.items.len()
        invariant
            i <= a.items@.len(),
            forall|k: int| 0 <= k < i ==> b@.contains(#[trigger] a.items@[k]),
        decreases a.items@.len() - i,
    {
        if !b.contains(&a.items[i]) {
            proof {
                assert(a.items@.contains(a.items@[i as int]));
            }
            return false;
        }
        i += 1;
    }
    proof {
        assert forall|e: E| a@.contains(e) implies b@.contains(e) by {
            let k = choose|k: int| 0 <= k < a.items@.len() && a.items@[k] == e;
            assert(b@.contains(a.items@[k]));
        }
    }
    true
}

/// True iff `a` and `b` share no element.
pub fn is_disjoint<E: SetElement>(a: &FiniteSet<E>, b: &FiniteSet<E>) -> (r: bool)
    ensures
        r == a@.disjoint(b@),
{
    let mut i: usize = 0;
    while i < a.items.len()
        invariant
            i <= a.items@.len(),
            forall|k: int| 0 <= k < i ==> !b@.contains(#[trigger] a.items@[k]),
        decreases a.items@.len() - i,
    {
        if b.contains(&a.items[i]) {
            proof {
                assert(a.items@.contains(a.items@[i as int]));
            }
            return false;
        }
        i += 1;
    }
    proof {
        assert forall|e: E| a@.contains(e) implies !b@.contains(e) by {
            let k = choose|k: int| 0 <= k < a.items@.len() && a.items@[k] == e;
            assert(!b@.contains(a.items@[k]));
        }
    }
    true
}

/// All elements present in `a` or `b`, each exactly once.
pub fn union<E: SetElement>(a: &FiniteSet<E>, b: &FiniteSet<E>) -> (r: FiniteSet<E>)
    requires
        a.wf(),
        b.wf(),
    ensures
        r.wf(),
        r@ == a@.union(b@),
{
    let mut r = a.duplicate();
    proof {
        assert(r@ =~= a@.union(b.items@.subrange(0, 0).to_set()));
    }
    let mut i: usize = 0;
    while i < b.items.len()
        invariant
            r.wf(),
            i <= b.items@.len(),
            r@ == a@.union(b.items@.subrange(0, i as int).to_set()),
        decreases b.items@.len() - i,
    {
        let x = b.items[i].clone_el();
        let _ = r.insert(x);
        proof {
            let prefix = b.items@.subrange(0, i as int);
            assert(b.items@.subrange(0, i + 1) =~= prefix.push(b.items@[i as int]));
            prefix.lemma_push_to_set_commute(b.items@[i as int]);
            assert(r@ =~= a@.union(b.items@.subrange(0, i + 1).to_set()));
        }
        i += 1;
    }
    proof {
        assert(b.items@.subrange(0, b.items@.len() as int) =~= b.items@);
        assert(r@ =~= a@.union(b@));
    }
    r
}

/// Elements present in both `a` and `b`.
pub fn intersection<E: SetElement>(a: &FiniteSet<E>, b: &FiniteSet<E>) -> (r: FiniteSet<E>)
    requires
        a.wf(),
        b.wf(),
    ensures
        r.wf(),
        r@ == a@.intersect(b@),
{
    let kept = keep_matching(a, b, true);
    proof {
        assert(kept@ =~= a@.intersect(b@));
    }
    kept
}

/// Elements in `a` but not in `b`. Not symmetric in its arguments.
pub fn difference<E: SetElement>(a: &FiniteSet<E>, b: &FiniteSet<E>) -> (r: FiniteSet<E>)
    requires
        a.wf(),
        b.wf(),
    ensures
        r.wf(),
        r@ == a@.difference(b@),
{
    let kept = keep_matching(a, b, false);
    proof {
        assert(kept@ =~= a@.difference(b@));
    }
    kept
}

/// Elements in exactly one of `a`, `b`: the union of the two one-sided
/// differences.
pub fn symmetric_difference<E: SetElement>(a: &FiniteSet<E>, b: &FiniteSet<E>) -> (r: FiniteSet<E>)
    requires
        a.wf(),
        b.wf(),
    ensures
        r.wf(),
        r@ == a@.difference(b@).union(b@.difference(a@)),
{
    let left = difference(a, b);
    let right = difference(b, a);
    union(&left, &right)
}

/// The elements of `a` whose membership in `b` equals `keep_present`:
/// the intersection with `b` when `keep_present` is true, the difference
/// with `b` when it is false.
fn keep_matching<E: SetElement>(a: &FiniteSet<E>, b: &FiniteSet<E>, keep_present: bool) -> (r:
    FiniteSet<E>)
    requires
        a.wf(),
    ensures
        r.wf(),
        forall|e: E| r@.contains(e) <==> (a@.contains(e) && b@.contains(e) == keep_present),
{
    let mut items: Vec<E> = Vec::new();
    let mut i: usize = 0;
    while i < a.items.len()
        invariant
            a.wf(),
            i <= a.items@.len(),
            items@.no_duplicates(),
            forall|e: E|
                #[trigger] items@.contains(e) <==> (a.items@.subrange(0, i as int).contains(e)
                    && b@.contains(e) == keep_present),
        decreases a.items@.len() - i,
    {
        let ghost prev = items@;
        let ghost cur = a.items@[i as int];
        if b.contains(&a.items[i]) == keep_present {
            proof {
                if prev.contains(cur) {
                    let k = choose|k: int|
                        0 <= k < a.items@.subrange(0, i as int).len() && a.items@.subrange(
                            0,
                            i as int,
                        )[k] == cur;
                    assert(a.items@[k] == a.items@[i as int]);
                    assert(false);
                }
                lemma_push_keeps_no_duplicates(prev, cur);
            }
            items.push(a.items[i].clone_el());
        }
        proof {
            assert(a.items@.subrange(0, i + 1) =~= a.items@.subrange(0, i as int).push(cur));
            assert forall|e: E| #[trigger] items@.contains(e) implies (a.items@.subrange(
                0,
                i + 1,
            ).contains(e) && b@.contains(e) == keep_present) by {
                if e != cur || !items@.contains(e) {
                    assert(prev.contains(e) ==> a.items@.subrange(0, i as int).contains(e));
                }
            }
            assert forall|e: E|
                a.items@.subrange(0, i + 1).contains(e) && b@.contains(e)
                    == keep_present implies #[trigger] items@.contains(e) by {
                if e != cur {
                    assert(a.items@.subrange(0, i as int).contains(e));
                }
            }
        }
        i += 1;
    }
    proof {
        assert(a.items@.subrange(0, a.items@.len() as int) =~= a.items@);
    }
    FiniteSet { items }
}

/// Law: union is commutative.
pub proof fn lemma_union_commutative<E>(a: Set<E>, b: Set<E>)
    ensures
        a.union(b) == b.union(a),
{
    assert(a.union(b) =~= b.union(a));
}

/// Law: union is associative.
pub proof fn lemma_union_associative<E>(a: Set<E>, b: Set<E>, c: Set<E>)
    ensures
        a.union(b).union(c) == a.union(b.union(c)),
{
    assert(a.union(b).union(c) =~= a.union(b.union(c)));
}

/// Law: intersection is commutative.
pub proof fn lemma_intersection_commutative<E>(a: Set<E>, b: Set<E>)
    ensures
        a.intersect(b) == b.intersect(a),
{
    assert(a.intersect(b) =~= b.intersect(a));
}

/// Law: intersection is associative.
pub proof fn lemma_intersection_associative<E>(a: Set<E>, b: Set<E>, c: Set<E>)
    ensures
        a.intersect(b).intersect(c) == a.intersect(b.intersect(c)),
{
    assert(a.intersect(b).intersect(c) =~= a.intersect(b.intersect(c)));
}

/// Law: the difference of `a` with `b`, together with their intersection,
/// gives back `a`.
pub proof fn lemma_difference_union_intersection<E>(a: Set<E>, b: Set<E>)
    ensures
        a.difference(b).union(a.intersect(b)) == a,
{
    assert(a.difference(b).union(a.intersect(b)) =~= a);
}

/// Law: the symmetric difference is the union of the two one-sided
/// differences — the shape [`symmetric_difference`] promises directly.
pub proof fn lemma_symmetric_difference_as_differences<E>(a: Set<E>, b: Set<E>)
    ensures
        a.difference(b).union(b.difference(a)) == b.difference(a).union(a.difference(b)),
{
    assert(a.difference(b).union(b.difference(a)) =~= b.difference(a).union(a.difference(b)));
}

/// Law: two sets are disjoint exactly when their intersection is empty.
pub proof fn lemma_disjoint_iff_empty_intersection<E>(a: Set<E>, b: Set<E>)
    ensures
        a.disjoint(b) == (a.intersect(b) == Set::<E>::empty()),
{
    if a.disjoint(b) {
        assert(a.intersect(b) =~= Set::<E>::empty());
    }
    if a.intersect(b) == Set::<E>::empty() {
        assert forall|e: E| a.contains(e) implies !b.contains(e) by {
            if b.contains(e) {
                assert(a.intersect(b).contains(e));
            }
        }
    }
}

} // verus!
