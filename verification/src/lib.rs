//! A small verified library built around three components: a generic
//! two-component algebraic value type, an entity registry with both a
//! closed-variant and an open-interface dispatch strategy, and set-algebra
//! operations over collections of unique elements.

pub mod entity;
pub mod guessing;
pub mod pair;
pub mod person;
pub mod predicates;
pub mod sets;
