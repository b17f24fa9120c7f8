# tiny_ecs

A small entity-component-system, written in Verus.

- `src/mask.rs`: the thirteen component kinds and the bit mask over them.
- `src/entity.rs`: entity identifiers.
- `src/data.rs`, `src/component.rs`: the data components carry, generic in the
  number type `F` of their quantities.
- `src/world.rs`: the world, its mathematical model (`WorldModel`) and the
  contracts of spawn, despawn, add, remove, get and query over that model.
- `src/laws.rs`: laws relating the world operations.
- `src/systems.rs`: movement and collision detection; the arithmetic and the
  overlap test are handed in as functions.
- `app/`: the parts that compute on `f64` (overlap test, vibe propagation,
  conservation check), the `System` trait, and serde-enabled copies of the
  library's types.
