//! A value type built by factory constructors.

use vstd::prelude::*;

verus! {

/// A named person, built by its factory constructors.
pub struct Person {
    pub name: String,
}

impl Person {
    /// Builds a person from a borrowed name.
    pub fn new(name: &str) -> (p: Person)
        ensures
            p.name@ == name@,
    {
        Person { name: name.to_owned() }
    }

    /// Builds a person from an owned name.
    pub fn new2(name: String) -> (p: Person)
        ensures
            p.name == name,
    {
        Person { name }
    }
}

} // verus!
