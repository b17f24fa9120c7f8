use tiny_ecs::{ColliderShape, CollisionSystem, Component, EntityId, MovementSystem, World};

type Triple = (f64, f64, f64);

fn add(p: Triple, v: Triple) -> Triple {
    (p.0 + v.0, p.1 + v.1, p.2 + v.2)
}

fn clamp(x: f64, lo: f64, hi: f64) -> f64 {
    x.clamp(lo, hi)
}

/// The overlap test that programs hand to collision detection.
fn overlap(pos_a: Triple, shape_a: ColliderShape<f64>, pos_b: Triple, shape_b: ColliderShape<f64>) -> bool {
    match (shape_a, shape_b) {
        (ColliderShape::Point, ColliderShape::Point) => {
            (pos_a.0 - pos_b.0).abs() < f64::EPSILON && (pos_a.1 - pos_b.1).abs() < f64::EPSILON
        }
        (ColliderShape::Circle { r: ra }, ColliderShape::Circle { r: rb }) => {
            let dx = pos_a.0 - pos_b.0;
            let dy = pos_a.1 - pos_b.1;
            let sum_r = ra + rb;
            dx * dx + dy * dy <= sum_r * sum_r
        }
        (ColliderShape::Box { w: w1, h: h1 }, ColliderShape::Box { w: w2, h: h2 }) => {
            (pos_a.0 - pos_b.0).abs() < w1 / 2.0 + w2 / 2.0
                && (pos_a.1 - pos_b.1).abs() < h1 / 2.0 + h2 / 2.0
        }
        (ColliderShape::Circle { r }, ColliderShape::Box { w, h })
        | (ColliderShape::Box { w, h }, ColliderShape::Circle { r }) => {
            let (box_pos, circle_pos) = if matches!(shape_a, ColliderShape::Circle { .. }) {
                (pos_b, pos_a)
            } else {
                (pos_a, pos_b)
            };
            let cx = clamp(circle_pos.0, box_pos.0 - w / 2.0, box_pos.0 + w / 2.0);
            let cy = clamp(circle_pos.1, box_pos.1 - h / 2.0, box_pos.1 + h / 2.0);
            let dx = circle_pos.0 - cx;
            let dy = circle_pos.1 - cy;
            dx * dx + dy * dy <= r * r
        }
        (ColliderShape::Point, _) | (_, ColliderShape::Point) => {
            let r = f64::EPSILON.sqrt();
            let (pt, other_pos, other_shape) = if matches!(shape_a, ColliderShape::Point) {
                (pos_a, pos_b, shape_b)
            } else {
                (pos_b, pos_a, shape_a)
            };
            match other_shape {
                ColliderShape::Circle { r: or } => {
                    let dx = pt.0 - other_pos.0;
                    let dy = pt.1 - other_pos.1;
                    dx * dx + dy * dy <= (r + or) * (r + or)
                }
                ColliderShape::Box { w, h } => {
                    let cx = clamp(pt.0, other_pos.0 - w / 2.0, other_pos.0 + w / 2.0);
                    let cy = clamp(pt.1, other_pos.1 - h / 2.0, other_pos.1 + h / 2.0);
                    let dx = pt.0 - cx;
                    let dy = pt.1 - cy;
                    dx * dx + dy * dy <= r * r
                }
                ColliderShape::Point => {
                    (pt.0 - other_pos.0).abs() < f64::EPSILON
                        && (pt.1 - other_pos.1).abs() < f64::EPSILON
                }
            }
        }
    }
}

// -----------------------------------------------------------------------
// MovementSystem
// -----------------------------------------------------------------------

#[test]
fn movement_system_updates_position() {
    let mut world = World::new();
    let id = world.spawn();
    world.add_component(id, Component::Position(10.0, 20.0, 30.0));
    world.add_component(id, Component::Velocity(1.0, 2.0, 3.0));

    let mut system = MovementSystem;
    system.run(&mut world, 1, add);

    let pos = world.positions.get(&id.0).unwrap();
    assert!((pos.0 - 11.0).abs() < 1e-10);
    assert!((pos.1 - 22.0).abs() < 1e-10);
    assert!((pos.2 - 33.0).abs() < 1e-10);
}

#[test]
fn movement_system_ignores_entities_without_velocity() {
    let mut world = World::new();
    let id = world.spawn();
    world.add_component(id, Component::Position(0.0, 0.0, 0.0));
    // No velocity

    let mut system = MovementSystem;
    system.run(&mut world, 1, add);

    let pos = world.positions.get(&id.0).unwrap();
    assert!((pos.0).abs() < 1e-10);
    assert!((pos.1).abs() < 1e-10);
    assert!((pos.2).abs() < 1e-10);
}

#[test]
fn system_trait_movement() {
    let mut sys = MovementSystem;
    let mut world = World::new();
    let id = world.spawn();
    world.add_component(id, Component::Position(5.0, 5.0, 5.0));
    world.add_component(id, Component::Velocity(1.0, 2.0, 3.0));
    sys.run(&mut world, 0, add);
    let pos = world.positions.get(&id.0).unwrap();
    assert!((pos.0 - 6.0).abs() < 1e-10);
    assert!((pos.1 - 7.0).abs() < 1e-10);
    assert!((pos.2 - 8.0).abs() < 1e-10);
}

#[test]
fn movement_leaves_velocity_and_non_movers_alone() {
    let mut world = World::new();
    let mover = world.spawn();
    let still = world.spawn();
    world.add_component(mover, Component::Position(0.0, 0.0, 0.0));
    world.add_component(mover, Component::Velocity(2.0, 0.0, -1.0));
    world.add_component(still, Component::Velocity(9.0, 9.0, 9.0));
    let mut system = MovementSystem;
    system.run(&mut world, 1, add);
    system.run(&mut world, 2, add);
    assert_eq!(*world.positions.get(&mover.0).unwrap(), (4.0, 0.0, -2.0));
    assert_eq!(*world.velocities.get(&mover.0).unwrap(), (2.0, 0.0, -1.0));
    assert!(world.positions.get(&still.0).is_none());
}

// -----------------------------------------------------------------------
// CollisionSystem
// -----------------------------------------------------------------------

#[test]
fn collision_detects_circle_overlap() {
    let mut world = World::new();
    let a = world.spawn();
    let b = world.spawn();
    world.add_component(a, Component::Position(0.0, 0.0, 0.0));
    world.add_component(a, Component::Collider(ColliderShape::Circle { r: 5.0 }));
    world.add_component(b, Component::Position(3.0, 4.0, 0.0));
    world.add_component(b, Component::Collider(ColliderShape::Circle { r: 5.0 }));

    let system = CollisionSystem;
    let collisions = system.detect_collisions(&world, overlap);
    // distance = 5, sum r = 10 -> overlap
    assert_eq!(collisions.len(), 1);
    assert!(collisions[0] == (a, b) || collisions[0] == (b, a));
}

#[test]
fn collision_no_overlap_when_far_apart() {
    let mut world = World::new();
    let a = world.spawn();
    let b = world.spawn();
    world.add_component(a, Component::Position(0.0, 0.0, 0.0));
    world.add_component(a, Component::Collider(ColliderShape::Circle { r: 1.0 }));
    world.add_component(b, Component::Position(10.0, 10.0, 0.0));
    world.add_component(b, Component::Collider(ColliderShape::Circle { r: 1.0 }));

    let system = CollisionSystem;
    let collisions = system.detect_collisions(&world, overlap);
    assert!(collisions.is_empty());
}

#[test]
fn collision_point_and_box() {
    let mut world = World::new();
    let a = world.spawn();
    let b = world.spawn();
    world.add_component(a, Component::Position(0.0, 0.0, 0.0));
    world.add_component(a, Component::Collider(ColliderShape::Box { w: 4.0, h: 4.0 }));
    world.add_component(b, Component::Position(1.0, 1.0, 0.0));
    world.add_component(b, Component::Collider(ColliderShape::Point));

    let system = CollisionSystem;
    let collisions = system.detect_collisions(&world, overlap);
    assert_eq!(collisions.len(), 1);
}

#[test]
fn collision_circle_and_box() {
    let mut world = World::new();
    let a = world.spawn();
    let b = world.spawn();
    world.add_component(a, Component::Position(0.0, 0.0, 0.0));
    world.add_component(a, Component::Collider(ColliderShape::Circle { r: 3.0 }));
    world.add_component(b, Component::Position(4.0, 0.0, 0.0));
    world.add_component(b, Component::Collider(ColliderShape::Box { w: 2.0, h: 2.0 }));

    let system = CollisionSystem;
    let collisions = system.detect_collisions(&world, overlap);
    // Box centered at (4,0) half-width 1, so left edge at 3. Circle radius 3 centered at (0,0)
    // touches x=3: distance from circle center to closest point on box = 1. 1 <= 3 -> overlap
    assert_eq!(collisions.len(), 1);
}

#[test]
fn collision_box_no_overlap() {
    let mut world = World::new();
    let a = world.spawn();
    let b = world.spawn();
    world.add_component(a, Component::Position(0.0, 0.0, 0.0));
    world.add_component(a, Component::Collider(ColliderShape::Box { w: 2.0, h: 2.0 }));
    world.add_component(b, Component::Position(10.0, 10.0, 0.0));
    world.add_component(b, Component::Collider(ColliderShape::Box { w: 2.0, h: 2.0 }));

    let system = CollisionSystem;
    let collisions = system.detect_collisions(&world, overlap);
    assert!(collisions.is_empty());
}

#[test]
fn system_trait_collision() {
    let sys = CollisionSystem;
    let mut world = World::new();
    let a = world.spawn();
    let b = world.spawn();
    world.add_component(a, Component::Position(0.0, 0.0, 0.0));
    world.add_component(a, Component::Collider(ColliderShape::Circle { r: 2.0 }));
    world.add_component(b, Component::Position(1.0, 0.0, 0.0));
    world.add_component(b, Component::Collider(ColliderShape::Circle { r: 2.0 }));

    // Running detection does not change the world
    let _ = sys.detect_collisions(&world, overlap);
    // Verify world still in good state
    assert!(world.entities.contains_key(&a.0));
    assert!(world.entities.contains_key(&b.0));
}

#[test]
fn collision_lists_each_pair_once() {
    let mut world = World::new();
    let mut ids: Vec<EntityId> = Vec::new();
    for i in 0..5 {
        let id = world.spawn();
        world.add_component(id, Component::Position(i as f64, 0.0, 0.0));
        world.add_component(id, Component::Collider(ColliderShape::Circle { r: 10.0 }));
        ids.push(id);
    }
    // An entity with a collider but no position takes no part.
    let loose = world.spawn();
    world.add_component(loose, Component::Collider(ColliderShape::Circle { r: 10.0 }));
    let pairs = CollisionSystem.detect_collisions(&world, overlap);
    assert_eq!(pairs.len(), 10);
    for (x, y) in &pairs {
        assert_ne!(x, y);
        assert!(ids.contains(x) && ids.contains(y));
        assert_eq!(pairs.iter().filter(|(p, q)| (p == x && q == y) || (p == y && q == x)).count(), 1);
    }
}
