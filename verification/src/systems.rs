//! The systems that run over a world each tick.  What they compute on the
//! numeric quantities is handed in as a function, so that the same
//! bookkeeping serves any number type.
use crate::component::Component;
use crate::data::ColliderShape;
use crate::entity::EntityId;
use crate::mask::{group_mask_lemmas, lemma_contains_kinds, lemma_insert_present, ComponentMask, ComponentType};
use crate::world::{World, WorldModel};
use vstd::prelude::*;

verus! {

broadcast use group_mask_lemmas;

/// The three coordinates of a position or velocity component.
pub open spec fn triple<F>(c: Component<F>) -> (F, F, F) {
    match c {
        Component::Position(x, y, z) => (x, y, z),
        Component::Velocity(x, y, z) => (x, y, z),
        _ => arbitrary(),
    }
}

/// The live entity `k` carries both `a` and `b` in its mask, and a component
/// of each kind is stored for it.
pub open spec fn carries_both<F>(m: WorldModel<F>, k: u64, a: ComponentType, b: ComponentType) -> bool {
    &&& m.has(k, a)
    &&& m.has(k, b)
    &&& m.stores(k, a)
    &&& m.stores(k, b)
}

/// The mask that holds exactly the kinds `a` and `b`.
pub open spec fn pair_mask(a: ComponentType, b: ComponentType) -> ComponentMask {
    ComponentMask::empty().added(a).added(b)
}

/// A query for `pair_mask(a, b)` selects exactly the live entities whose
/// mask holds both kinds.
pub proof fn lemma_selects_pair<F>(m: WorldModel<F>, k: u64, a: ComponentType, b: ComponentType)
    ensures
        m.selects(k, pair_mask(a, b)) <==> (m.has(k, a) && m.has(k, b)),
{
    ComponentMask::lemma_empty(a);
    ComponentMask::lemma_added(ComponentMask::empty(), a, a);
    ComponentMask::lemma_added(ComponentMask::empty().added(a), b, b);
    if m.live(k) {
        lemma_contains_kinds(m.entities[k], pair_mask(a, b));
        if m.has(k, a) && m.has(k, b) {
            assert forall|t: ComponentType| pair_mask(a, b).holds(t) implies m.entities[k].holds(t) by {}
        }
        if m.selects(k, pair_mask(a, b)) {
            assert(pair_mask(a, b).holds(a));
            assert(pair_mask(a, b).holds(b));
        }
    }
}

/// Updates position of entities with both Position and Velocity.
#[derive(Debug, Default, Clone, Copy)]
pub struct MovementSystem;

impl MovementSystem {
    /// Moves every live entity that carries a position and a velocity: its
    /// new position is `step(position, velocity)`.  Nothing else changes.
    pub fn run<F: Copy, S: Fn((F, F, F), (F, F, F)) -> (F, F, F)>(
        &mut self,
        world: &mut World<F>,
        tick: u64,
        step: S,
    )
        requires
            forall|p: (F, F, F), v: (F, F, F)| step.requires((p, v)),
        ensures
            final(world)@.entities == old(world)@.entities,
            final(world)@.next_id == old(world)@.next_id,
            final(world)@.components.dom() == old(world)@.components.dom(),
            forall|k: u64, t: ComponentType| t != ComponentType::Position
                ==> #[trigger] final(world)@.get(k, t) == old(world)@.get(k, t),
            forall|k: u64| !carries_both(old(world)@, k, ComponentType::Position, ComponentType::Velocity)
                ==> #[trigger] final(world)@.get(k, ComponentType::Position) == old(world)@.get(
                    k,
                    ComponentType::Position,
                ),
            forall|k: u64| #![trigger final(world)@.components[(k, ComponentType::Position)]]
                carries_both(old(world)@, k, ComponentType::Position, ComponentType::Velocity) ==> {
                    let c = final(world)@.components[(k, ComponentType::Position)];
                    &&& c is Position
                    &&& step.ensures(
                        (
                            triple(old(world)@.components[(k, ComponentType::Position)]),
                            triple(old(world)@.components[(k, ComponentType::Velocity)]),
                        ),
                        triple(c),
                    )
                },
    {
        let mask = ComponentMask::new().with(ComponentType::Position).with(ComponentType::Velocity);
        let ids: Vec<EntityId> = world.query(mask);
        let ghost m0 = world@;
        proof {
            world.lemma_kinds_agree();
        }
        let mut i: usize = 0;
        while i < ids.len()
            invariant
                0 <= i <= ids.len(),
                m0 == old(world)@,
                m0.kinds_agree(),
                ids@.no_duplicates(),
                forall|e: EntityId| ids@.contains(e) <==> m0.selects(e.0, pair_mask(ComponentType::Position, ComponentType::Velocity)),
                forall|p: (F, F, F), v: (F, F, F)| step.requires((p, v)),
                world@.entities == m0.entities,
                world@.next_id == m0.next_id,
                world@.components.dom() == m0.components.dom(),
                forall|k: u64, t: ComponentType| t != ComponentType::Position
                    ==> #[trigger] world@.get(k, t) == m0.get(k, t),
                forall|k: u64| #[trigger] world@.get(k, ComponentType::Position) != m0.get(k, ComponentType::Position)
                    ==> ids@.subrange(0, i as int).contains(EntityId(k))
                    && carries_both(m0, k, ComponentType::Position, ComponentType::Velocity),
                forall|k: u64| #![trigger world@.components[(k, ComponentType::Position)]]
                    ids@.subrange(0, i as int).contains(EntityId(k))
                    && carries_both(m0, k, ComponentType::Position, ComponentType::Velocity) ==> {
                        let c = world@.components[(k, ComponentType::Position)];
                        &&& c is Position
                        &&& step.ensures(
                            (
                                triple(m0.components[(k, ComponentType::Position)]),
                                triple(m0.components[(k, ComponentType::Velocity)]),
                            ),
                            triple(c),
                        )
                    },
            decreases ids.len() - i,
        {
            let id = ids[i];
            assert(ids@.contains(id)) by {
                assert(ids@[i as int] == id);
            }
            proof {
                lemma_selects_pair(m0, id.0, ComponentType::Position, ComponentType::Velocity);
            }
            assert(!ids@.subrange(0, i as int).contains(id));
            let ghost before = world@;
            match world.get_component(id, ComponentType::Velocity) {
                Some(Component::Velocity(x, y, z)) => {
                    match world.get_component(id, ComponentType::Position) {
                        Some(Component::Position(a, b, c)) => {
                            let r = step((a, b, c), (x, y, z));
                            proof {
                                lemma_insert_present(before.entities[id.0], ComponentType::Position);
                            }
                            let ghost moved = Component::Position(r.0, r.1, r.2);
                            world.add_component(id, Component::Position(r.0, r.1, r.2));
                            assert(world@ == before.with_component(id.0, moved));
                            assert(world@.entities =~= m0.entities);
                            assert(world@.components.dom() =~= m0.components.dom());
                            assert forall|k: u64, t: ComponentType| t != ComponentType::Position
                                implies #[trigger] world@.get(k, t) == m0.get(k, t) by {
                                assert(world@.get(k, t) == before.get(k, t));
                            }
                        },
                        _ => {},
                    }
                },
                _ => {},
            }
            assert forall|k: u64| #[trigger] world@.get(k, ComponentType::Position) != m0.get(k, ComponentType::Position)
                implies ids@.subrange(0, i + 1).contains(EntityId(k))
                && carries_both(m0, k, ComponentType::Position, ComponentType::Velocity) by {
                if k == id.0 {
                    assert(ids@.subrange(0, i + 1)[i as int] == id);
                } else {
                    assert(before.get(k, ComponentType::Position) != m0.get(k, ComponentType::Position));
                    let j: int = choose|j: int| 0 <= j < i && ids@.subrange(0, i as int)[j] == EntityId(k);
                    assert(ids@.subrange(0, i + 1)[j] == EntityId(k));
                }
            }
            i = i + 1;
        }
        assert(ids@.subrange(0, ids@.len() as int) == ids@);
        assert forall|k: u64| carries_both(m0, k, ComponentType::Position, ComponentType::Velocity)
            implies ids@.contains(EntityId(k)) by {
            lemma_selects_pair(m0, k, ComponentType::Position, ComponentType::Velocity);
        }
    }
}

/// The position stored for `k`.
pub open spec fn position_of<F>(m: WorldModel<F>, k: u64) -> (F, F, F) {
    triple(m.components[(k, ComponentType::Position)])
}

/// The collider shape stored for `k`.
pub open spec fn shape_of<F>(m: WorldModel<F>, k: u64) -> ColliderShape<F> {
    match m.components[(k, ComponentType::Collider)] {
        Component::Collider(s) => s,
        _ => arbitrary(),
    }
}

/// `k` is a live entity whose mask holds Position and Collider, with both
/// stored: an entity that collision detection looks at.
pub open spec fn collidable<F>(m: WorldModel<F>, k: u64) -> bool {
    carries_both(m, k, ComponentType::Position, ComponentType::Collider)
}

/// The overlap test, called on the positions and shapes of `a` and `b` in
/// that order, may answer `v`.
pub open spec fn overlap_answers<F, O: Fn((F, F, F), ColliderShape<F>, (F, F, F), ColliderShape<F>) -> bool>(
    overlap: O,
    m: WorldModel<F>,
    a: u64,
    b: u64,
    v: bool,
) -> bool {
    overlap.ensures((position_of(m, a), shape_of(m, a), position_of(m, b), shape_of(m, b)), v)
}

/// Index pairs in strictly increasing order, first by the first index.
pub open spec fn pair_before(p: (int, int), q: (int, int)) -> bool {
    p.0 < q.0 || (p.0 == q.0 && p.1 < q.1)
}

/// Detects overlapping colliders among entities with Position + Collider.
#[derive(Debug, Default, Clone, Copy)]
pub struct CollisionSystem;

impl CollisionSystem {
    /// Returns pairs of entity IDs whose colliders are overlapping: each
    /// unordered pair of distinct collidable entities is tested once, with
    /// `overlap`, and listed once if the test says they overlap.
    pub fn detect_collisions<F: Copy, O: Fn((F, F, F), ColliderShape<F>, (F, F, F), ColliderShape<F>) -> bool>(
        &self,
        world: &World<F>,
        overlap: O,
    ) -> (r: Vec<(EntityId, EntityId)>)
        requires
            forall|p: (F, F, F), s: ColliderShape<F>, q: (F, F, F), t: ColliderShape<F>|
                overlap.requires((p, s, q, t)),
        ensures
            forall|i: int| #![trigger r@[i]] 0 <= i < r@.len() ==> {
                let (a, b) = r@[i];
                &&& a != b
                &&& collidable(world@, a.0)
                &&& collidable(world@, b.0)
                &&& overlap_answers(overlap, world@, a.0, b.0, true)
            },
            forall|i: int, j: int| #![trigger r@[i], r@[j]] 0 <= i < r@.len() && 0 <= j < r@.len() && i != j
                ==> r@[i] != r@[j] && r@[i] != (r@[j].1, r@[j].0),
            forall|a: u64, b: u64| #![trigger collidable(world@, a), collidable(world@, b)]
                a != b && collidable(world@, a) && collidable(world@, b)
                && !r@.contains((EntityId(a), EntityId(b))) && !r@.contains((EntityId(b), EntityId(a)))
                ==> overlap_answers(overlap, world@, a, b, false) || overlap_answers(overlap, world@, b, a, false),
    {
        let mask = ComponentMask::new().with(ComponentType::Position).with(ComponentType::Collider);
        let ids: Vec<EntityId> = world.query(mask);
        let ghost m = world@;
        let mut collisions: Vec<(EntityId, EntityId)> = Vec::new();
        let ghost mut from: Seq<(int, int)> = Seq::empty();
        let n: usize = ids.len();
        let mut i: usize = 0;
        while i < n
            invariant
                0 <= i <= n,
                n == ids@.len(),
                m == world@,
                ids@.no_duplicates(),
                forall|e: EntityId| ids@.contains(e) <==> m.selects(e.0, pair_mask(ComponentType::Position, ComponentType::Collider)),
                forall|p: (F, F, F), s: ColliderShape<F>, q: (F, F, F), t: ColliderShape<F>|
                    overlap.requires((p, s, q, t)),
                from.len() == collisions@.len(),
                forall|k: int| #![trigger from[k]] 0 <= k < from.len() ==> {
                    &&& 0 <= from[k].0 < from[k].1 < n
                    &&& from[k].0 < i
                    &&& collisions@[k] == (ids@[from[k].0], ids@[from[k].1])
                    &&& collidable(m, ids@[from[k].0].0)
                    &&& collidable(m, ids@[from[k].1].0)
                    &&& overlap_answers(overlap, m, ids@[from[k].0].0, ids@[from[k].1].0, true)
                },
                forall|k1: int, k2: int| #![trigger from[k1], from[k2]] 0 <= k1 < k2 < from.len()
                    ==> pair_before(from[k1], from[k2]),
                forall|p: int, q: int| #![trigger ids@[p], ids@[q]] 0 <= p < i && p < q < n
                    && collidable(m, ids@[p].0) && collidable(m, ids@[q].0)
                    ==> collisions@.contains((ids@[p], ids@[q]))
                        || overlap_answers(overlap, m, ids@[p].0, ids@[q].0, false),
            decreases n - i,
        {
            let mut j: usize = i + 1;
            while j < n
                invariant
                    0 <= i < n,
                    i + 1 <= j <= n,
                    n == ids@.len(),
                    m == world@,
                    ids@.no_duplicates(),
                    forall|e: EntityId| ids@.contains(e) <==> m.selects(e.0, pair_mask(ComponentType::Position, ComponentType::Collider)),
                    forall|p: (F, F, F), s: ColliderShape<F>, q: (F, F, F), t: ColliderShape<F>|
                        overlap.requires((p, s, q, t)),
                    from.len() == collisions@.len(),
                    forall|k: int| #![trigger from[k]] 0 <= k < from.len() ==> {
                        &&& 0 <= from[k].0 < from[k].1 < n
                        &&& pair_before(from[k], (i as int, j as int))
                        &&& collisions@[k] == (ids@[from[k].0], ids@[from[k].1])
                        &&& collidable(m, ids@[from[k].0].0)
                        &&& collidable(m, ids@[from[k].1].0)
                        &&& overlap_answers(overlap, m, ids@[from[k].0].0, ids@[from[k].1].0, true)
                    },
                    forall|k1: int, k2: int| #![trigger from[k1], from[k2]] 0 <= k1 < k2 < from.len()
                        ==> pair_before(from[k1], from[k2]),
                    forall|p: int, q: int| #![trigger ids@[p], ids@[q]]
                        ((0 <= p < i && p < q < n) || (p == i && i < q < j))
                        && collidable(m, ids@[p].0) && collidable(m, ids@[q].0)
                        ==> collisions@.contains((ids@[p], ids@[q]))
                            || overlap_answers(overlap, m, ids@[p].0, ids@[q].0, false),
                decreases n - j,
            {
                let a = ids[i];
                let b = ids[j];
                let ghost before = collisions@;
                let ghost from_before = from;
                let pa = world.get_component(a, ComponentType::Position);
                let pb = world.get_component(b, ComponentType::Position);
                let ca = world.get_component(a, ComponentType::Collider);
                let cb = world.get_component(b, ComponentType::Collider);
                let ghost mut tested = false;
                let mut hit = false;
                proof {
                    assert(ids@.contains(a)) by { assert(ids@[i as int] == a); }
                    assert(ids@.contains(b)) by { assert(ids@[j as int] == b); }
                    lemma_selects_pair(m, a.0, ComponentType::Position, ComponentType::Collider);
                    lemma_selects_pair(m, b.0, ComponentType::Position, ComponentType::Collider);
                }
                if let Some(Component::Position(ax, ay, az)) = pa {
                    if let Some(Component::Position(bx, by, bz)) = pb {
                        if let Some(Component::Collider(sa)) = ca {
                            if let Some(Component::Collider(sb)) = cb {
                                hit = overlap((ax, ay, az), sa, (bx, by, bz), sb);
                                proof {
                                    tested = true;
                                    assert(overlap_answers(overlap, m, a.0, b.0, hit));
                                }
                                if hit {
                                    collisions.push((a, b));
                                    proof {
                                        from = from.push((i as int, j as int));
                                    }
                                }
                            }
                        }
                    }
                }
                assert(collidable(m, a.0) && collidable(m, b.0) ==> tested);
                proof {
                    assert forall|k: int| #![trigger from[k]] 0 <= k < from.len() implies {
                        &&& 0 <= from[k].0 < from[k].1 < n
                        &&& pair_before(from[k], (i as int, j + 1))
                        &&& collisions@[k] == (ids@[from[k].0], ids@[from[k].1])
                        &&& collidable(m, ids@[from[k].0].0)
                        &&& collidable(m, ids@[from[k].1].0)
                        &&& overlap_answers(overlap, m, ids@[from[k].0].0, ids@[from[k].1].0, true)
                    } by {
                        if k < from_before.len() {
                            assert(from[k] == from_before[k]);
                            assert(collisions@[k] == before[k]);
                        }
                    }
                    assert forall|k1: int, k2: int| #![trigger from[k1], from[k2]] 0 <= k1 < k2 < from.len()
                        implies pair_before(from[k1], from[k2]) by {
                        if k2 < from_before.len() {
                            assert(from[k1] == from_before[k1]);
                            assert(from[k2] == from_before[k2]);
                        } else {
                            assert(from[k1] == from_before[k1]);
                        }
                    }
                    assert forall|p: int, q: int| #![trigger ids@[p], ids@[q]]
                        ((0 <= p < i && p < q < n) || (p == i && i < q < j + 1))
                        && collidable(m, ids@[p].0) && collidable(m, ids@[q].0)
                        implies collisions@.contains((ids@[p], ids@[q]))
                            || overlap_answers(overlap, m, ids@[p].0, ids@[q].0, false) by {
                        if p == i && q == j {
                            assert(ids@[p] == a && ids@[q] == b);
                            if hit {
                                assert(collisions@[collisions@.len() - 1] == (a, b));
                            }
                        } else if before.contains((ids@[p], ids@[q])) {
                            let k: int = choose|k: int| 0 <= k < before.len() && before[k] == (ids@[p], ids@[q]);
                            assert(collisions@[k] == before[k]);
                        }
                    }
                }
                j = j + 1;
            }
            i = i + 1;
        }
        proof {
            let r = collisions@;
            assert forall|x: int| #![trigger r[x]] 0 <= x < r.len() implies {
                let (a, b) = r[x];
                &&& a != b
                &&& collidable(m, a.0)
                &&& collidable(m, b.0)
                &&& overlap_answers(overlap, m, a.0, b.0, true)
            } by {
                assert(0 <= from[x].0 < from[x].1 < n);
                assert(ids@[from[x].0] != ids@[from[x].1]);
            }
            assert forall|x: int, y: int| #![trigger r[x], r[y]] 0 <= x < r.len() && 0 <= y < r.len() && x != y
                implies r[x] != r[y] && r[x] != (r[y].1, r[y].0) by {
                if x < y {
                    assert(pair_before(from[x], from[y]));
                } else {
                    assert(pair_before(from[y], from[x]));
                }
                assert(from[x] != from[y]);
            }
            assert forall|a: u64, b: u64| #![trigger collidable(m, a), collidable(m, b)]
                a != b && collidable(m, a) && collidable(m, b)
                && !r.contains((EntityId(a), EntityId(b))) && !r.contains((EntityId(b), EntityId(a)))
                implies overlap_answers(overlap, m, a, b, false) || overlap_answers(overlap, m, b, a, false) by {
                lemma_selects_pair(m, a, ComponentType::Position, ComponentType::Collider);
                lemma_selects_pair(m, b, ComponentType::Position, ComponentType::Collider);
                assert(ids@.contains(EntityId(a)));
                assert(ids@.contains(EntityId(b)));
                let pa: int = choose|p: int| 0 <= p < n && ids@[p] == EntityId(a);
                let pb: int = choose|p: int| 0 <= p < n && ids@[p] == EntityId(b);
                if pa < pb {
                    assert(collidable(m, ids@[pa].0) && collidable(m, ids@[pb].0));
                } else {
                    assert(collidable(m, ids@[pb].0) && collidable(m, ids@[pa].0));
                }
            }
        }
        collisions
    }
}

} // verus!
