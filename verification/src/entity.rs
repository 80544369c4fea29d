//! Heterogeneous entities that share the capability set {name, speak}, held
//! in a registry that appends and iterates but never mutates an entry.
//!
//! Two dispatch strategies are offered side by side:
//! - [`Entity`] / [`EntityRegistry`]: a closed tagged union whose `speak`
//!   resolution is an exhaustive match over the known variants;
//! - [`Speaks`] / [`OpenRegistry`]: an open interface, extensible with new
//!   implementing types without any change to the registry.
//!
//! An entity that does not override its speech gets the default
//! "cannot talk" line of the capability interface.

use vstd::prelude::*;
use vstd::string::StringExecFns;

verus! {

/// The speech line of a named entity that cannot talk.
pub open spec fn cannot_talk_line(name: Seq<char>) -> Seq<char> {
    name + " cannot talk"@
}

/// The speech line of a human-like entity.
pub open spec fn hello_line(name: Seq<char>) -> Seq<char> {
    name + " says hello"@
}

/// The speech line of an animal-like entity.
pub open spec fn meow_line(name: Seq<char>) -> Seq<char> {
    name + " says meow"@
}

/// The capability set an open-interface entity offers: a display name and a
/// speech line. `speak` defaults to the "cannot talk" line; an overriding
/// implementation replaces it wholly, together with `line_spec`.
pub trait Speaks {
    /// The entity's display name.
    spec fn name_spec(&self) -> Seq<char>;

    /// The entity's speech line; by default it cannot talk.
    open spec fn line_spec(&self) -> Seq<char> {
        cannot_talk_line(self.name_spec())
    }

    fn name(&self) -> (r: String)
        ensures
            r@ == self.name_spec(),
    ;

    fn speak(&self) -> (r: String)
        ensures
            r@ == self.line_spec(),
    ;
}

/// The default speech of an entity that cannot talk; an implementation that
/// does not override its speech line hands its name to this.
pub fn default_speech(name: String) -> (r: String)
    ensures
        r@ == cannot_talk_line(name@),
{
    let mut line = name;
    line.append(" cannot talk");
    line
}

/// The closed tagged union of the known entity variants, each holding an
/// immutable display name.
pub enum Entity {
    /// A human-like entity; it says hello.
    Named(String),
    /// An animal-like entity; it says meow.
    Vocal(String),
}

/// The display name of a closed-union entity.
pub open spec fn entity_name(e: Entity) -> Seq<char> {
    match e {
        Entity::Named(n) => n@,
        Entity::Vocal(n) => n@,
    }
}

/// The speech line of a closed-union entity: an exhaustive match, one arm
/// per variant.
pub open spec fn entity_line(e: Entity) -> Seq<char> {
    match e {
        Entity::Named(n) => hello_line(n@),
        Entity::Vocal(n) => meow_line(n@),
    }
}

impl Entity {
    /// The display name.
    pub fn name(&self) -> (r: String)
        ensures
            r@ == entity_name(*self),
    {
        match self {
            Entity::Named(n) => n.clone(),
            Entity::Vocal(n) => n.clone(),
        }
    }

    /// The speech line, resolved by a total match over the variants.
    pub fn speak(&self) -> (r: String)
        ensures
            r@ == entity_line(*self),
    {
        match self {
            Entity::Named(n) => {
                let mut line = n.clone();
                line.append(" says hello");
                line
            },
            Entity::Vocal(n) => {
                let mut line = n.clone();
                line.append(" says meow");
                line
            },
        }
    }
}

/// An ordered, append-only collection of closed-union entities.
pub struct EntityRegistry {
    entries: Vec<Entity>,
}

impl View for EntityRegistry {
    type V = Seq<Entity>;

    closed spec fn view(&self) -> Seq<Entity> {
        self.entries@
    }
}

impl EntityRegistry {
    /// An empty registry.
    pub fn new() -> (r: Self)
        ensures
            r@ == Seq::<Entity>::empty(),
    {
        EntityRegistry { entries: Vec::new() }
    }

    /// Appends an entity; duplicates are permitted, order is kept.
    pub fn register(&mut self, e: Entity)
        ensures
            final(self)@ == old(self)@.push(e),
    {
        self.entries.push(e);
    }

    /// The number of registered entities.
    pub fn len(&self) -> (n: usize)
        ensures
            n == self@.len(),
    {
        self.entries.len()
    }

    /// One speech line per entity, in registration order.
    pub fn speak_all(&self) -> (r: Vec<String>)
        ensures
            r@.len() == self@.len(),
            forall|i: int| 0 <= i < self@.len() ==> r@[i]@ == entity_line(self@[i]),
    {
        let mut lines: Vec<String> = Vec::new();
        let mut i: usize = 0;
        while i < self.entries.len()
            invariant
                i <= self@.len(),
                lines@.len() == i,
                forall|k: int| 0 <= k < i ==> lines@[k]@ == entity_line(self@[k]),
            decreases self@.len() - i,
        {
            lines.push(self.entries[i].speak());
            i += 1;
        }
        lines
    }
}

/// Law: for one display name, the open-interface entities speak the same
/// lines as the closed-union variants — the two dispatch strategies agree on
/// the entities both can represent.
pub proof fn lemma_open_matches_closed(name: String)
    ensures
        (NamedEntity { name }).line_spec() == entity_line(Entity::Named(name)),
        (VocalEntity { name }).line_spec() == entity_line(Entity::Vocal(name)),
        (NamedEntity { name }).name_spec() == entity_name(Entity::Named(name)),
        (VocalEntity { name }).name_spec() == entity_name(Entity::Vocal(name)),
{
}

/// A human-like entity for the open interface; it says hello.
pub struct NamedEntity {
    pub name: String,
}

impl Speaks for NamedEntity {
    open spec fn name_spec(&self) -> Seq<char> {
        self.name@
    }

    open spec fn line_spec(&self) -> Seq<char> {
        hello_line(self.name@)
    }

    fn name(&self) -> (r: String) {
        self.name.clone()
    }

    fn speak(&self) -> (r: String) {
        let mut line = self.name.clone();
        line.append(" says hello");
        line
    }
}

/// An animal-like entity for the open interface; it says meow.
pub struct VocalEntity {
    pub name: String,
}

impl Speaks for VocalEntity {
    open spec fn name_spec(&self) -> Seq<char> {
        self.name@
    }

    open spec fn line_spec(&self) -> Seq<char> {
        meow_line(self.name@)
    }

    fn name(&self) -> (r: String) {
        self.name.clone()
    }

    fn speak(&self) -> (r: String) {
        let mut line = self.name.clone();
        line.append(" says meow");
        line
    }
}

/// An entity that does not override its speech: it keeps the interface's
/// default "cannot talk" line. The registry needed no change to admit it.
pub struct SilentEntity {
    pub name: String,
}

impl Speaks for SilentEntity {
    open spec fn name_spec(&self) -> Seq<char> {
        self.name@
    }

    fn name(&self) -> (r: String) {
        self.name.clone()
    }

    fn speak(&self) -> (r: String) {
        default_speech(self.name.clone())
    }
}

/// An ordered, append-only collection of open-interface entities; any type
/// implementing [`Speaks`] can be registered, through indirect storage.
pub struct OpenRegistry {
    entries: Vec<Box<dyn Speaks>>,
}

impl View for OpenRegistry {
    type V = Seq<Box<dyn Speaks>>;

    closed spec fn view(&self) -> Seq<Box<dyn Speaks>> {
        self.entries@
    }
}

impl OpenRegistry {
    /// An empty registry.
    pub fn new() -> (r: Self)
        ensures
            r@ == Seq::<Box<dyn Speaks>>::empty(),
    {
        OpenRegistry { entries: Vec::new() }
    }

    /// Appends an entity; duplicates are permitted, order is kept.
    pub fn register(&mut self, e: Box<dyn Speaks>)
        ensures
            final(self)@ == old(self)@.push(e),
    {
        self.entries.push(e);
    }

    /// The number of registered entities.
    pub fn len(&self) -> (n: usize)
        ensures
            n == self@.len(),
    {
        self.entries.len()
    }

    /// One speech line per entity, in registration order, each resolved by a
    /// virtual call through the capability interface.
    pub fn speak_all(&self) -> (r: Vec<String>)
        ensures
            r@.len() == self@.len(),
            forall|i: int| 0 <= i < self@.len() ==> r@[i]@ == self@[i].line_spec(),
    {
        let mut lines: Vec<String> = Vec::new();
        let mut i: usize = 0;
        while i < self.entries.len()
            invariant
                i <= self@.len(),
                lines@.len() == i,
                forall|k: int| 0 <= k < i ==> lines@[k]@ == self@[k].line_spec(),
            decreases self@.len() - i,
        {
            lines.push(self.entries[i].speak());
            i += 1;
        }
        lines
    }
}

} // verus!
