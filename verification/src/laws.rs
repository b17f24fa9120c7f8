//! Laws that relate the world operations to one another, stated over the
//! model that their contracts speak of.
use crate::component::Component;
use crate::mask::{group_mask_lemmas, lemma_remove_undoes_insert, ComponentType};
use crate::world::WorldModel;
use vstd::prelude::*;

verus! {

broadcast use group_mask_lemmas;

/// A spawned identifier is fresh: before the spawn nothing is live or stored
/// under it, and afterwards it is live with no component.
pub proof fn law_spawn_is_fresh<F>(m: WorldModel<F>)
    requires
        m.consistent(),
        m.next_id < u64::MAX,
    ensures
        forall|k: u64| #[trigger] m.live(k) ==> k < m.next_id,
        !m.live(m.next_id as u64),
        forall|t: ComponentType| !#[trigger] m.stores(m.next_id as u64, t),
        m.spawned().live(m.next_id as u64),
        forall|t: ComponentType| !#[trigger] m.spawned().has(m.next_id as u64, t),
        forall|t: ComponentType| #[trigger] m.spawned().get(m.next_id as u64, t) is None,
{
    assert forall|t: ComponentType| !#[trigger] m.stores(m.next_id as u64, t) by {
        if m.stores(m.next_id as u64, t) {
            assert((m.next_id as u64) < m.next_id);
        }
    }
    assert forall|t: ComponentType| #[trigger] m.spawned().get(m.next_id as u64, t) is None by {
        assert(!m.stores(m.next_id as u64, t));
    }
}

/// Two spawns in a row hand out two consecutive, distinct identifiers, and
/// both are live afterwards.
pub proof fn law_spawns_are_distinct<F>(m: WorldModel<F>)
    requires
        m.consistent(),
        m.next_id + 1 < u64::MAX,
    ensures
        m.spawned().next_id == m.next_id + 1,
        m.spawned().spawned().live(m.next_id as u64),
        m.spawned().spawned().live((m.next_id + 1) as u64),
{
}

/// What `add_component` stored is what `get_component` reads back, and every
/// other (entity, kind) pair reads as before.
pub proof fn law_get_after_add<F>(m: WorldModel<F>, id: u64, c: Component<F>)
    ensures
        m.with_component(id, c).get(id, c.kind()) == Some(c),
        forall|k: u64, t: ComponentType| (k, t) != (id, c.kind()) ==>
            #[trigger] m.with_component(id, c).get(k, t) == m.get(k, t),
        m.live(id) ==> m.with_component(id, c).has(id, c.kind()),
{
}

/// Removing a kind leaves nothing of it stored and clears it from the mask.
pub proof fn law_get_after_remove<F>(m: WorldModel<F>, id: u64, t: ComponentType)
    ensures
        m.without_component(id, t).get(id, t) is None,
        !m.without_component(id, t).has(id, t),
        forall|k: u64, u: ComponentType| (k, u) != (id, t) ==>
            #[trigger] m.without_component(id, t).get(k, u) == m.get(k, u),
{
}

/// Removing a component that was just added to a live entity which had no
/// component of that kind gives back the world as it was.
pub proof fn law_remove_undoes_add<F>(m: WorldModel<F>, id: u64, c: Component<F>)
    requires
        m.consistent(),
        m.live(id),
        !m.stores(id, c.kind()),
    ensures
        m.with_component(id, c).without_component(id, c.kind()) == m,
{
    let t = c.kind();
    assert(!m.has(id, t));
    lemma_remove_undoes_insert(m.entities[id], t);
    let n = m.with_component(id, c).without_component(id, t);
    assert(n.entities =~= m.entities);
    assert(n.components =~= m.components);
}

/// Despawning a live entity of a consistent world leaves nothing of it: it
/// is no longer live and no component is stored under it.  Every other
/// entity keeps its mask and its components.
pub proof fn law_despawn_clears<F>(m: WorldModel<F>, id: u64)
    requires
        m.consistent(),
        m.live(id),
    ensures
        !m.despawned(id).live(id),
        forall|t: ComponentType| #[trigger] m.despawned(id).get(id, t) is None,
        forall|k: u64| k != id ==> (#[trigger] m.despawned(id).live(k) <==> m.live(k)),
        forall|k: u64| k != id && m.live(k) ==> #[trigger] m.despawned(id).entities[k] == m.entities[k],
        forall|k: u64, t: ComponentType| k != id ==> #[trigger] m.despawned(id).get(k, t) == m.get(k, t),
{
    assert forall|t: ComponentType| #[trigger] m.despawned(id).get(id, t) is None by {
        assert(m.has(id, t) <==> m.stores(id, t));
    }
}

/// In a world whose masks and stores agree (every world built from `new` by
/// `spawn`, `despawn`, `remove_component`, and `add_component` on live
/// entities), a component of kind `t` is stored for `id` exactly when `id`
/// is live and its mask holds `t`: `get_component` finds something exactly
/// when `has_component` says yes.
pub proof fn law_stores_match_masks<F>(m: WorldModel<F>)
    requires
        m.agrees(),
    ensures
        forall|id: u64, t: ComponentType| #[trigger] m.get(id, t) is Some <==> m.has(id, t),
{
    assert forall|id: u64, t: ComponentType| #[trigger] m.get(id, t) is Some <==> m.has(id, t) by {
        if m.stores(id, t) {
            assert(m.live(id));
        }
        if m.live(id) {
            assert(m.has(id, t) <==> m.stores(id, t));
        }
    }
}

/// Despawning an identifier that is not live changes nothing.
pub proof fn law_despawn_missing_is_noop<F>(m: WorldModel<F>, id: u64)
    requires
        !m.live(id),
    ensures
        m.despawned(id) == m,
{
}

/// A new world has no entity and no component, and the first identifier
/// it hands out is 1; after that first spawn, 1 is live and holds no kind.
pub proof fn law_new_world<F>()
    ensures
        WorldModel::<F>::empty().next_id == 1,
        forall|k: u64| !#[trigger] WorldModel::<F>::empty().live(k),
        forall|k: u64, u: ComponentType| #[trigger] WorldModel::<F>::empty().get(k, u) is None,
        WorldModel::<F>::empty().agrees(),
        WorldModel::<F>::empty().spawned().live(1),
        forall|u: ComponentType| !#[trigger] WorldModel::<F>::empty().spawned().has(1, u),
{
}

/// The id counter only ever moves forward, and only `spawn` moves it: spawn
/// advances it by one, while despawn, add and remove leave it where it was.
/// Hence an id handed out by `spawn` is never handed out again: every later
/// spawn returns a strictly greater id.
pub proof fn law_counter_only_advances<F>(m: WorldModel<F>, id: u64, c: Component<F>, t: ComponentType)
    ensures
        m.spawned().next_id == m.next_id + 1,
        m.despawned(id).next_id == m.next_id,
        m.with_component(id, c).next_id == m.next_id,
        m.without_component(id, t).next_id == m.next_id,
{
}

/// What spawn does to the entities: exactly one identifier, the old counter,
/// becomes live, holding no kind; every other identifier keeps its liveness
/// and its mask, and the stores do not change.
pub proof fn law_spawn_effect<F>(m: WorldModel<F>)
    requires
        m.next_id < u64::MAX,
    ensures
        forall|k: u64| #[trigger] m.spawned().live(k) <==> (m.live(k) || k == m.next_id),
        forall|u: ComponentType| !#[trigger] m.spawned().entities[m.next_id as u64].holds(u),
        forall|u: ComponentType| !#[trigger] m.spawned().has(m.next_id as u64, u),
        forall|k: u64| k != m.next_id && m.live(k) ==> #[trigger] m.spawned().entities[k] == m.entities[k],
        forall|k: u64, u: ComponentType| #[trigger] m.spawned().get(k, u) == m.get(k, u),
{
}

/// What despawn does, for any world and any identifier: `id` is no longer
/// live, every other identifier keeps its liveness and its mask, the counter
/// stays, components of other identifiers stay, and the components of `id`
/// that its mask held are gone.  Despawning an identifier that was not live
/// changes nothing at all.
pub proof fn law_despawn_effect<F>(m: WorldModel<F>, id: u64)
    ensures
        m.despawned(id).next_id == m.next_id,
        !m.despawned(id).live(id),
        forall|k: u64| k != id ==> (#[trigger] m.despawned(id).live(k) <==> m.live(k)),
        forall|k: u64| k != id && m.live(k) ==> #[trigger] m.despawned(id).entities[k] == m.entities[k],
        forall|k: u64, u: ComponentType| k != id ==> #[trigger] m.despawned(id).get(k, u) == m.get(k, u),
        forall|u: ComponentType| m.has(id, u) ==> #[trigger] m.despawned(id).get(id, u) is None,
        forall|u: ComponentType| !m.has(id, u) ==> #[trigger] m.despawned(id).get(id, u) == m.get(id, u),
        forall|u: ComponentType| !#[trigger] m.despawned(id).has(id, u),
        !m.live(id) ==> m.despawned(id) == m,
{
}

/// What adding a component does, for any world: no identifier becomes live
/// or stops being live, the counter stays, a live `id`'s mask gains exactly
/// the component's kind, every other mask stays, and `get` reads `c` at
/// `(id, kind)` and the old value everywhere else.
pub proof fn law_add_effect<F>(m: WorldModel<F>, id: u64, c: Component<F>)
    ensures
        m.with_component(id, c).next_id == m.next_id,
        forall|k: u64| #[trigger] m.with_component(id, c).live(k) <==> m.live(k),
        m.live(id) ==> forall|u: ComponentType| #[trigger] m.with_component(id, c).entities[id].holds(u)
            <==> (u == c.kind() || m.entities[id].holds(u)),
        forall|k: u64| k != id && m.live(k) ==> #[trigger] m.with_component(id, c).entities[k] == m.entities[k],
        m.with_component(id, c).get(id, c.kind()) == Some(c),
        forall|k: u64, u: ComponentType| (k, u) != (id, c.kind()) ==>
            #[trigger] m.with_component(id, c).get(k, u) == m.get(k, u),
{
}

/// What removing a component does, for any world: no identifier becomes
/// live or stops being live (in particular `id` stays live if it was), the
/// counter stays, a live `id`'s mask loses exactly `t`, every other mask
/// stays, and `get` reads nothing at `(id, t)` and the old value everywhere
/// else.
pub proof fn law_remove_effect<F>(m: WorldModel<F>, id: u64, t: ComponentType)
    ensures
        m.without_component(id, t).next_id == m.next_id,
        forall|k: u64| #[trigger] m.without_component(id, t).live(k) <==> m.live(k),
        m.live(id) ==> forall|u: ComponentType| #[trigger] m.without_component(id, t).entities[id].holds(u)
            <==> (u != t && m.entities[id].holds(u)),
        forall|k: u64| k != id && m.live(k) ==> #[trigger] m.without_component(id, t).entities[k] == m.entities[k],
        m.without_component(id, t).get(id, t) is None,
        forall|k: u64, u: ComponentType| (k, u) != (id, t) ==>
            #[trigger] m.without_component(id, t).get(k, u) == m.get(k, u),
{
}

} // verus!
