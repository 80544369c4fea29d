//! Small numeric predicates and predicate builders.

use vstd::prelude::*;

verus! {

/// True exactly when `x` is even.
pub fn is_even(x: u32) -> (r: bool)
    ensures
        r == (x % 2 == 0),
{
    x % 2 == 0
}

/// Builds a predicate that holds exactly for the numbers above `limit`.
pub fn greater_than(limit: u32) -> (r: impl Fn(u32) -> bool)
    ensures
        forall|y: u32| #[trigger] call_requires(r, (y,)),
        forall|y: u32, b: bool| call_ensures(r, (y,), b) ==> b == (y > limit),
{
    (move |y: u32| -> (b: bool)
        ensures
            b == (y > limit),
        { y > limit })
}

} // verus!
