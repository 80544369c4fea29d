use algebra_core::entity::{
    default_speech, Entity, EntityRegistry, NamedEntity, OpenRegistry, SilentEntity, Speaks,
    VocalEntity,
};

#[test]
fn closed_registry_speaks_in_registration_order() {
    let mut registry = EntityRegistry::new();
    registry.register(Entity::Named(String::from("John")));
    registry.register(Entity::Vocal(String::from("Misty")));
    assert_eq!(registry.len(), 2);
    let lines = registry.speak_all();
    assert_eq!(lines.len(), 2);
    assert_eq!(lines[0], "John says hello");
    assert_eq!(lines[1], "Misty says meow");
}

#[test]
fn closed_registry_permits_duplicate_names() {
    let mut registry = EntityRegistry::new();
    registry.register(Entity::Named(String::from("John")));
    registry.register(Entity::Named(String::from("John")));
    let lines = registry.speak_all();
    assert_eq!(lines, vec!["John says hello", "John says hello"]);
}

#[test]
fn closed_entity_reports_its_name() {
    let human = Entity::Named(String::from("Bob"));
    let cat = Entity::Vocal(String::from("Misty"));
    assert_eq!(human.name(), "Bob");
    assert_eq!(cat.name(), "Misty");
}

#[test]
fn closed_speak_all_is_restartable() {
    let mut registry = EntityRegistry::new();
    registry.register(Entity::Vocal(String::from("Misty")));
    let first = registry.speak_all();
    let second = registry.speak_all();
    assert_eq!(first, second);
}

#[test]
fn open_registry_matches_closed_registry() {
    let mut registry = OpenRegistry::new();
    registry.register(Box::new(NamedEntity { name: String::from("John") }));
    registry.register(Box::new(VocalEntity { name: String::from("Misty") }));
    assert_eq!(registry.len(), 2);
    let lines = registry.speak_all();
    assert_eq!(lines.len(), 2);
    assert_eq!(lines[0], "John says hello");
    assert_eq!(lines[1], "Misty says meow");
}

#[test]
fn open_registry_admits_a_new_variant_unchanged() {
    let mut registry = OpenRegistry::new();
    registry.register(Box::new(NamedEntity { name: String::from("John") }));
    registry.register(Box::new(VocalEntity { name: String::from("Misty") }));
    registry.register(Box::new(SilentEntity { name: String::from("Pebble") }));
    let lines = registry.speak_all();
    assert_eq!(lines.len(), 3);
    assert_eq!(lines[0], "John says hello");
    assert_eq!(lines[1], "Misty says meow");
    assert_eq!(lines[2], "Pebble cannot talk");
}

#[test]
fn silent_entity_keeps_the_default_line() {
    let rock = SilentEntity { name: String::from("Pebble") };
    assert_eq!(rock.name(), "Pebble");
    assert_eq!(rock.speak(), "Pebble cannot talk");
    assert_eq!(default_speech(String::from("Pebble")), "Pebble cannot talk");
}

#[test]
fn open_entities_speak_their_own_lines() {
    let human = NamedEntity { name: String::from("Bob") };
    let cat = VocalEntity { name: String::from("Tom") };
    assert_eq!(human.name(), "Bob");
    assert_eq!(human.speak(), "Bob says hello");
    assert_eq!(cat.speak(), "Tom says meow");
}
