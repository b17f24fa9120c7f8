use tiny_ecs::{Component, ComponentMask, ComponentType, EntityId, World};

// -----------------------------------------------------------------------
// World: spawn / despawn / add / remove components
// -----------------------------------------------------------------------

#[test]
fn world_spawn_increments_id() {
    let mut world = World::<f64>::new();
    let id1 = world.spawn();
    let id2 = world.spawn();
    assert_eq!(id1, EntityId(1));
    assert_eq!(id2, EntityId(2));
}

#[test]
fn world_despawn_removes_entity_and_components() {
    let mut world = World::<f64>::new();
    let id = world.spawn();
    world.add_component(id, Component::Position(1.0, 2.0, 3.0));
    world.add_component(id, Component::Vibe(10.0));
    assert!(world.entities.contains_key(&id.0));
    assert!(world.positions.contains_key(&id.0));

    world.despawn(id);
    assert!(!world.entities.contains_key(&id.0));
    assert!(!world.positions.contains_key(&id.0));
    assert!(!world.vibes.contains_key(&id.0));
}

#[test]
fn world_despawn_nonexistent_is_noop() {
    let mut world = World::<f64>::new();
    world.despawn(EntityId(999)); // should not panic
}

#[test]
fn world_add_component_updates_mask() {
    let mut world = World::<f64>::new();
    let id = world.spawn();
    world.add_component(id, Component::Position(0.0, 0.0, 0.0));
    let mask = world.entities.get(&id.0).unwrap();
    assert!(mask.has(ComponentType::Position));
    assert!(!mask.has(ComponentType::Velocity));
}

#[test]
fn world_remove_component() {
    let mut world = World::<f64>::new();
    let id = world.spawn();
    world.add_component(id, Component::Health(100.0));
    assert!(world.has_component(id, ComponentType::Health));
    world.remove_component(id, ComponentType::Health);
    assert!(!world.has_component(id, ComponentType::Health));
    assert!(!world.healths.contains_key(&id.0));
}

#[test]
fn world_has_component_nonexistent_entity() {
    let world = World::<f64>::new();
    assert!(!world.has_component(EntityId(999), ComponentType::Position));
}

#[test]
fn world_get_component_nonexistent() {
    let world = World::<f64>::new();
    assert!(world.get_component(EntityId(1), ComponentType::Position).is_none());
}

#[test]
fn world_get_component_returns_value() {
    let mut world = World::<f64>::new();
    let id = world.spawn();
    world.add_component(id, Component::Velocity(0.5, 1.0, -0.5));
    let comp = world.get_component(id, ComponentType::Velocity);
    assert!(comp.is_some());
    match comp.unwrap() {
        Component::Velocity(x, y, z) => {
            assert!((x - 0.5).abs() < 1e-10);
            assert!((y - 1.0).abs() < 1e-10);
            assert!((z + 0.5).abs() < 1e-10);
        }
        _ => panic!("wrong component type"),
    }
}

// -----------------------------------------------------------------------
// World: query
// -----------------------------------------------------------------------

#[test]
fn world_query_matches_entities() {
    let mut world = World::<f64>::new();
    let e1 = world.spawn();
    let e2 = world.spawn();
    let e3 = world.spawn();

    world.add_component(e1, Component::Position(0.0, 0.0, 0.0));
    world.add_component(e1, Component::Velocity(1.0, 0.0, 0.0));
    world.add_component(e2, Component::Position(5.0, 5.0, 5.0));
    world.add_component(e3, Component::Position(0.0, 0.0, 0.0));
    world.add_component(e3, Component::Velocity(0.0, 1.0, 0.0));

    let query_mask =
        ComponentMask::new().with(ComponentType::Position).with(ComponentType::Velocity);
    let results = world.query(query_mask);
    assert_eq!(results.len(), 2);
    assert!(results.contains(&e1));
    assert!(results.contains(&e3));
    assert!(!results.contains(&e2));
}

#[test]
fn world_query_empty_when_no_match() {
    let mut world = World::<f64>::new();
    let id = world.spawn();
    world.add_component(id, Component::Position(1.0, 2.0, 3.0));
    let results = world.query(ComponentMask::new().with(ComponentType::AgentAI));
    assert!(results.is_empty());
}

// -----------------------------------------------------------------------
// BiomeAffinity string component
// -----------------------------------------------------------------------

#[test]
fn biome_affinity() {
    let mut world = World::<f64>::new();
    let id = world.spawn();
    world.add_component(id, Component::BiomeAffinity("tundra".into()));
    assert!(world.has_component(id, ComponentType::BiomeAffinity));
    let comp = world.get_component(id, ComponentType::BiomeAffinity);
    assert!(comp.is_some());
    match comp.unwrap() {
        Component::BiomeAffinity(b) => assert_eq!(b, "tundra"),
        _ => panic!("wrong type"),
    }
}

// -----------------------------------------------------------------------
// World next_id
// -----------------------------------------------------------------------

#[test]
fn world_next_id_progression() {
    let mut world = World::<f64>::new();
    assert_eq!(world.next_id(), 1);
    world.spawn();
    assert_eq!(world.next_id(), 2);
    world.spawn();
    world.spawn();
    assert_eq!(world.next_id(), 4);
}

// -----------------------------------------------------------------------
// Despawn + re-spawn
// -----------------------------------------------------------------------

#[test]
fn respawn_after_despawn() {
    let mut world = World::<f64>::new();
    let id = world.spawn();
    world.add_component(id, Component::Health(100.0));
    world.despawn(id);
    let id2 = world.spawn();
    assert_eq!(id2, EntityId(2));
    world.add_component(id2, Component::Health(50.0));
    assert_eq!(world.healths[&id2.0], 50.0);
    assert!(!world.healths.contains_key(&id.0));
}

#[test]
fn remove_component_from_entity_without_it_is_safe() {
    let mut world = World::<f64>::new();
    let id = world.spawn();
    // No component added yet
    world.remove_component(id, ComponentType::Position); // should not panic
    assert!(!world.has_component(id, ComponentType::Position));
}

#[test]
fn default_world_is_empty() {
    let world = World::<f64>::default();
    assert_eq!(world.next_id(), 1);
    assert!(world.entities.is_empty());
    assert!(world.positions.is_empty());
    assert!(world.velocities.is_empty());
    assert!(world.vibes.is_empty());
    assert!(world.healths.is_empty());
    assert!(world.agent_ais.is_empty());
    assert!(world.renderables.is_empty());
    assert!(world.colliders.is_empty());
    assert!(world.inventories.is_empty());
    assert!(world.pets.is_empty());
    assert!(world.dialogues.is_empty());
    assert!(world.biome_affinities.is_empty());
    assert!(world.craftables.is_empty());
    assert!(world.quest_targets.is_empty());
}

// -----------------------------------------------------------------------
// Further cases
// -----------------------------------------------------------------------

#[test]
fn despawn_leaves_other_entities_alone() {
    let mut world = World::<f64>::new();
    let a = world.spawn();
    let b = world.spawn();
    world.add_component(a, Component::Health(1.0));
    world.add_component(b, Component::Health(2.0));
    world.add_component(b, Component::BiomeAffinity("swamp".into()));
    world.despawn(a);
    assert!(!world.has_component(a, ComponentType::Health));
    assert!(world.get_component(a, ComponentType::Health).is_none());
    assert!(world.has_component(b, ComponentType::Health));
    assert!(world.has_component(b, ComponentType::BiomeAffinity));
    match world.get_component(b, ComponentType::Health) {
        Some(Component::Health(h)) => assert_eq!(h, 2.0),
        _ => panic!("health of b lost"),
    }
}

#[test]
fn add_replaces_previous_value_of_same_kind() {
    let mut world = World::<f64>::new();
    let a = world.spawn();
    world.add_component(a, Component::Vibe(3.0));
    world.add_component(a, Component::Vibe(4.0));
    assert_eq!(world.vibes.len(), 1);
    match world.get_component(a, ComponentType::Vibe) {
        Some(Component::Vibe(v)) => assert_eq!(v, 4.0),
        _ => panic!("vibe missing"),
    }
}

#[test]
fn add_to_dead_entity_stores_without_mask() {
    let mut world = World::<f64>::new();
    world.add_component(EntityId(7), Component::Health(5.0));
    assert!(!world.has_component(EntityId(7), ComponentType::Health));
    assert!(world.get_component(EntityId(7), ComponentType::Health).is_some());
    assert!(world.entities.is_empty());
}

#[test]
fn remove_after_add_restores_mask() {
    let mut world = World::<f64>::new();
    let a = world.spawn();
    world.add_component(a, Component::Position(1.0, 1.0, 1.0));
    let before = world.entities.get(&a.0).unwrap().inner();
    world.add_component(a, Component::Collider(tiny_ecs::ColliderShape::Point));
    world.remove_component(a, ComponentType::Collider);
    assert_eq!(world.entities.get(&a.0).unwrap().inner(), before);
    assert!(world.get_component(a, ComponentType::Collider).is_none());
}

#[test]
fn with_next_id_starts_empty() {
    let mut world = World::<f64>::with_next_id(10);
    assert_eq!(world.next_id(), 10);
    assert!(world.entities.is_empty());
    assert_eq!(world.spawn(), EntityId(10));
}

#[test]
fn query_lists_each_entity_once() {
    let mut world = World::<f64>::new();
    let mut ids = Vec::new();
    for i in 0..20 {
        let id = world.spawn();
        if i % 3 == 0 {
            world.add_component(id, Component::Health(i as f64));
        }
        ids.push(id);
    }
    let mut r = world.query(ComponentMask::new().with(ComponentType::Health));
    r.sort_by_key(|e| e.0);
    let expected: Vec<EntityId> = ids.iter().enumerate().filter(|(i, _)| i % 3 == 0).map(|(_, e)| *e).collect();
    assert_eq!(r, expected);
    let all = world.query(ComponentMask::new());
    assert_eq!(all.len(), 20);
}

const KINDS: [ComponentType; 13] = [
    ComponentType::Position,
    ComponentType::Velocity,
    ComponentType::Vibe,
    ComponentType::Health,
    ComponentType::AgentAI,
    ComponentType::Renderable,
    ComponentType::Collider,
    ComponentType::Inventory,
    ComponentType::Pet,
    ComponentType::Dialogue,
    ComponentType::BiomeAffinity,
    ComponentType::Craftable,
    ComponentType::QuestTarget,
];

fn stores_match_masks(world: &World<f64>, ids: &[EntityId]) {
    for &id in ids {
        for t in KINDS {
            assert_eq!(world.get_component(id, t).is_some(), world.has_component(id, t));
        }
    }
}

#[test]
fn stores_and_masks_agree_through_operations() {
    let mut world = World::<f64>::new();
    let a = world.spawn();
    let b = world.spawn();
    let c = world.spawn();
    world.add_component(a, Component::Position(1.0, 2.0, 3.0));
    world.add_component(a, Component::Health(4.0));
    world.add_component(b, Component::BiomeAffinity("dune".into()));
    world.add_component(c, Component::Vibe(1.0));
    stores_match_masks(&world, &[a, b, c, EntityId(4), EntityId(0)]);
    world.remove_component(a, ComponentType::Health);
    world.despawn(c);
    stores_match_masks(&world, &[a, b, c, EntityId(4), EntityId(0)]);
    let d = world.spawn();
    world.add_component(d, Component::Collider(tiny_ecs::ColliderShape::Point));
    stores_match_masks(&world, &[a, b, c, d, EntityId(0)]);
}

#[test]
fn cloned_world_has_same_contents() {
    let mut world = World::<f64>::new();
    let a = world.spawn();
    world.add_component(a, Component::Position(1.0, 2.0, 3.0));
    world.add_component(a, Component::BiomeAffinity("reef".into()));
    let copy = world.clone();
    assert_eq!(copy.next_id(), world.next_id());
    assert_eq!(copy.entities.get(&a.0).unwrap().inner(), world.entities.get(&a.0).unwrap().inner());
    assert_eq!(copy.positions.get(&a.0), Some(&(1.0, 2.0, 3.0)));
    assert_eq!(copy.biome_affinities.get(&a.0).map(|s| s.as_str()), Some("reef"));
    world.despawn(a);
    assert!(copy.has_component(a, ComponentType::Position));
}
