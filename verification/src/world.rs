//! The world: entities, the component masks that say what each carries, and
//! one sparse store per component kind.
use crate::component::Component;
use crate::data::{
    AgentState, ColliderShape, CraftRecipe, DialogueState, InventoryData, PetData, QuestData,
    RenderInfo,
};
use crate::entity::EntityId;
use crate::mask::{group_mask_lemmas, lemma_contains_kinds, lemma_idx_injective, ComponentMask, ComponentType, COMPONENT_KINDS};
use std::collections::HashMap;
use vstd::prelude::*;

verus! {

broadcast use vstd::std_specs::hash::group_hash_axioms, group_mask_lemmas;

/// What a world holds: the mask of each live entity, the next identifier to
/// hand out, and the stored component of each (entity, kind) pair.
pub struct WorldModel<F> {
    pub entities: Map<u64, ComponentMask>,
    pub next_id: nat,
    pub components: Map<(u64, ComponentType), Component<F>>,
}

impl<F> WorldModel<F> {
    /// A world with no entity and no component, whose first identifier is 1.
    pub open spec fn empty() -> Self {
        WorldModel { entities: Map::empty(), next_id: 1, components: Map::empty() }
    }

    /// `id` names a spawned entity that has not been despawned.
    pub open spec fn live(self, id: u64) -> bool {
        self.entities.contains_key(id)
    }

    /// The mask of the live entity `id` holds kind `t`.
    pub open spec fn has(self, id: u64, t: ComponentType) -> bool {
        self.live(id) && self.entities[id].holds(t)
    }

    /// A component of kind `t` is stored for `id`.
    pub open spec fn stores(self, id: u64, t: ComponentType) -> bool {
        self.components.contains_key((id, t))
    }

    /// The component of kind `t` stored for `id`, if any.
    pub open spec fn get(self, id: u64, t: ComponentType) -> Option<Component<F>> {
        if self.stores(id, t) {
            Some(self.components[(id, t)])
        } else {
            None
        }
    }

    /// `id` is live and its mask holds every bit of `mask`.
    pub open spec fn selects(self, id: u64, mask: ComponentMask) -> bool {
        self.live(id) && self.entities[id].bits() & mask.bits() == mask.bits()
    }

    /// Every stored component is stored under its own kind.
    pub open spec fn kinds_agree(self) -> bool {
        forall|p: (u64, ComponentType)| #[trigger]
            self.components.contains_key(p) ==> self.components[p].kind() == p.1
    }

    /// The bookkeeping agrees with the stores: live identifiers were handed
    /// out, a live entity's mask holds exactly the kinds stored for it, and
    /// nothing is stored under an identifier not yet handed out.
    pub open spec fn consistent(self) -> bool {
        &&& self.kinds_agree()
        &&& 1 <= self.next_id
        &&& forall|id: u64| #[trigger] self.live(id) ==> 1 <= id < self.next_id && self.entities[id].wf()
        &&& forall|id: u64, t: ComponentType| #![trigger self.has(id, t)] #![trigger self.stores(id, t)]
            self.live(id) ==> (self.has(id, t) <==> self.stores(id, t))
        &&& forall|id: u64, t: ComponentType| #[trigger] self.stores(id, t) ==> id < self.next_id
    }

    /// A consistent world in which, moreover, nothing is stored under an
    /// identifier that is not live: the masks of the live entities and the
    /// stores say exactly the same thing.
    pub open spec fn agrees(self) -> bool {
        &&& self.consistent()
        &&& forall|id: u64, t: ComponentType| #[trigger] self.stores(id, t) ==> self.live(id)
    }

    /// After `spawn`: a new live entity with the empty mask under `next_id`.
    pub open spec fn spawned(self) -> Self {
        WorldModel {
            entities: self.entities.insert(self.next_id as u64, ComponentMask::empty()),
            next_id: self.next_id + 1,
            components: self.components,
        }
    }

    /// After `despawn(id)`: a live `id` is gone, with every component its mask
    /// held; a dead one changes nothing.
    pub open spec fn despawned(self, id: u64) -> Self {
        if self.live(id) {
            WorldModel {
                entities: self.entities.remove(id),
                next_id: self.next_id,
                components: self.components.remove_keys(
                    Set::new(|p: (u64, ComponentType)| p.0 == id && self.entities[id].holds(p.1)),
                ),
            }
        } else {
            self
        }
    }

    /// After `add_component(id, c)`: `c` is stored under its kind, and a live
    /// `id`'s mask holds that kind.
    pub open spec fn with_component(self, id: u64, c: Component<F>) -> Self {
        WorldModel {
            entities: if self.live(id) {
                self.entities.insert(id, self.entities[id].added(c.kind()))
            } else {
                self.entities
            },
            next_id: self.next_id,
            components: self.components.insert((id, c.kind()), c),
        }
    }

    /// After `remove_component(id, t)`: nothing of kind `t` is stored for `id`,
    /// and a live `id`'s mask lacks `t`.
    pub open spec fn without_component(self, id: u64, t: ComponentType) -> Self {
        WorldModel {
            entities: if self.live(id) {
                self.entities.insert(id, self.entities[id].removed(t))
            } else {
                self.entities
            },
            next_id: self.next_id,
            components: self.components.remove((id, t)),
        }
    }
}

/// The central ECS world storing entities and their components.
#[derive(Debug)]
pub struct World<F> {
    pub entities: HashMap<u64, ComponentMask>,
    next_id: u64,
    pub positions: HashMap<u64, (F, F, F)>,
    pub velocities: HashMap<u64, (F, F, F)>,
    pub vibes: HashMap<u64, F>,
    pub healths: HashMap<u64, F>,
    pub agent_ais: HashMap<u64, AgentState<F>>,
    pub renderables: HashMap<u64, RenderInfo<F>>,
    pub colliders: HashMap<u64, ColliderShape<F>>,
    pub inventories: HashMap<u64, InventoryData>,
    pub pets: HashMap<u64, PetData<F>>,
    pub dialogues: HashMap<u64, DialogueState<F>>,
    pub biome_affinities: HashMap<u64, String>,
    pub craftables: HashMap<u64, CraftRecipe>,
    pub quest_targets: HashMap<u64, QuestData<F>>,
}

impl<F> World<F> {
    spec fn stored(self, id: u64, t: ComponentType) -> bool {
        match t {
            ComponentType::Position => self.positions@.contains_key(id),
            ComponentType::Velocity => self.velocities@.contains_key(id),
            ComponentType::Vibe => self.vibes@.contains_key(id),
            ComponentType::Health => self.healths@.contains_key(id),
            ComponentType::AgentAI => self.agent_ais@.contains_key(id),
            ComponentType::Renderable => self.renderables@.contains_key(id),
            ComponentType::Collider => self.colliders@.contains_key(id),
            ComponentType::Inventory => self.inventories@.contains_key(id),
            ComponentType::Pet => self.pets@.contains_key(id),
            ComponentType::Dialogue => self.dialogues@.contains_key(id),
            ComponentType::BiomeAffinity => self.biome_affinities@.contains_key(id),
            ComponentType::Craftable => self.craftables@.contains_key(id),
            ComponentType::QuestTarget => self.quest_targets@.contains_key(id),
        }
    }

    spec fn value(self, id: u64, t: ComponentType) -> Component<F> {
        match t {
            ComponentType::Position => {
                let p = self.positions@[id];
                Component::Position(p.0, p.1, p.2)
            },
            ComponentType::Velocity => {
                let p = self.velocities@[id];
                Component::Velocity(p.0, p.1, p.2)
            },
            ComponentType::Vibe => Component::Vibe(self.vibes@[id]),
            ComponentType::Health => Component::Health(self.healths@[id]),
            ComponentType::AgentAI => Component::AgentAI(self.agent_ais@[id]),
            ComponentType::Renderable => Component::Renderable(self.renderables@[id]),
            ComponentType::Collider => Component::Collider(self.colliders@[id]),
            ComponentType::Inventory => Component::Inventory(self.inventories@[id]),
            ComponentType::Pet => Component::Pet(self.pets@[id]),
            ComponentType::Dialogue => Component::Dialogue(self.dialogues@[id]),
            ComponentType::BiomeAffinity => Component::BiomeAffinity(self.biome_affinities@[id]),
            ComponentType::Craftable => Component::Craftable(self.craftables@[id]),
            ComponentType::QuestTarget => Component::QuestTarget(self.quest_targets@[id]),
        }
    }
}

impl<F> View for World<F> {
    type V = WorldModel<F>;

    closed spec fn view(&self) -> WorldModel<F> {
        WorldModel {
            entities: self.entities@,
            next_id: self.next_id as nat,
            components: Map::new(
                |p: (u64, ComponentType)| self.stored(p.0, p.1),
                |p: (u64, ComponentType)| self.value(p.0, p.1),
            ),
        }
    }
}

impl<F: Copy> Clone for World<F> {
    fn clone(&self) -> (r: Self)
        ensures
            r@ == self@,
    {
        let r = World {
            entities: self.entities.clone(),
            next_id: self.next_id,
            positions: self.positions.clone(),
            velocities: self.velocities.clone(),
            vibes: self.vibes.clone(),
            healths: self.healths.clone(),
            agent_ais: self.agent_ais.clone(),
            renderables: self.renderables.clone(),
            colliders: self.colliders.clone(),
            inventories: self.inventories.clone(),
            pets: self.pets.clone(),
            dialogues: self.dialogues.clone(),
            biome_affinities: self.biome_affinities.clone(),
            craftables: self.craftables.clone(),
            quest_targets: self.quest_targets.clone(),
        };
        assert(r@.components =~= self@.components);
        r
    }
}

impl<F> Default for World<F> {
    fn default() -> (r: Self)
        ensures
            r@ == WorldModel::<F>::empty(),
    {
        Self::new()
    }
}

impl<F> World<F> {
    /// Every stored component of a world is stored under its own kind.
    pub proof fn lemma_kinds_agree(&self)
        ensures
            self@.kinds_agree(),
    {
    }

    /// Create an empty world.
    pub fn new() -> (r: Self)
        ensures
            r@ == WorldModel::<F>::empty(),
            r@.consistent(),
            r@.agrees(),
    {
        let r = Self {
            entities: HashMap::new(),
            next_id: 1,
            positions: HashMap::new(),
            velocities: HashMap::new(),
            vibes: HashMap::new(),
            healths: HashMap::new(),
            agent_ais: HashMap::new(),
            renderables: HashMap::new(),
            colliders: HashMap::new(),
            inventories: HashMap::new(),
            pets: HashMap::new(),
            dialogues: HashMap::new(),
            biome_affinities: HashMap::new(),
            craftables: HashMap::new(),
            quest_targets: HashMap::new(),
        };
        assert(r@.components =~= Map::empty());
        r
    }

    /// An empty world whose next identifier is `next_id`: the starting point
    /// for restoring a world whose entities and components are filled in
    /// afterwards through the public fields.
    pub fn with_next_id(next_id: u64) -> (r: Self)
        ensures
            r@ == (WorldModel::<F> {
                entities: Map::empty(),
                next_id: next_id as nat,
                components: Map::empty(),
            }),
    {
        let mut r = Self::new();
        r.next_id = next_id;
        assert(r@.components =~= Map::empty());
        r
    }

    /// Spawn a new entity and return its ID.
    pub fn spawn(&mut self) -> (r: EntityId)
        requires
            old(self)@.next_id < u64::MAX,
        ensures
            r.0 == old(self)@.next_id,
            final(self)@ == old(self)@.spawned(),
            old(self)@.consistent() ==> final(self)@.consistent(),
            old(self)@.agrees() ==> final(self)@.agrees(),
    {
        let id = EntityId(self.next_id);
        self.next_id = self.next_id + 1;
        self.entities.insert(id.0, ComponentMask::new());
        assert(self@.components =~= old(self)@.components);
        proof {
            if old(self)@.consistent() {
                lemma_spawned_consistent(old(self)@);
            }
            if old(self)@.agrees() {
                lemma_spawned_agrees(old(self)@);
            }
        }
        id
    }

    /// Despawn an entity and remove all its components.
    pub fn despawn(&mut self, id: EntityId)
        ensures
            final(self)@ == old(self)@.despawned(id.0),
            old(self)@.consistent() ==> final(self)@.consistent(),
            old(self)@.agrees() ==> final(self)@.agrees(),
    {
        let mask = match self.entities.remove(&id.0) {
            Some(m) => m,
            None => {
                assert(self@.entities =~= old(self)@.entities);
                assert(self@.components =~= old(self)@.components);
                assert(self@ == old(self)@.despawned(id.0));
                return;
            },
        };
        let ghost start = self@;
        // Remove every component this entity had
        let mut i: u8 = 0;
        while i < COMPONENT_KINDS
            invariant
                i <= COMPONENT_KINDS,
                old(self)@.live(id.0),
                mask == old(self)@.entities[id.0],
                self@.entities == start.entities,
                self@.next_id == start.next_id,
                start.entities == old(self)@.entities.remove(id.0),
                start.next_id == old(self)@.next_id,
                start.components == old(self)@.components,
                self@.components == start.components.remove_keys(
                    Set::new(|p: (u64, ComponentType)| p.0 == id.0 && mask.holds(p.1) && p.1.idx() < i),
                ),
            decreases COMPONENT_KINDS - i,
        {
            let ty = ComponentType::at_index(i);
            if mask.has(ty) {
                self.remove_stored(id, ty);
            }
            proof {
                assert forall|t: ComponentType| t.idx() == i implies t == ty by {
                    lemma_idx_injective(t, ty);
                }
            }
            assert(self@.components =~= start.components.remove_keys(
                Set::new(|p: (u64, ComponentType)| p.0 == id.0 && mask.holds(p.1) && p.1.idx() < i + 1),
            ));
            i = i + 1;
        }
        proof {
            assert forall|t: ComponentType| #[trigger] t.idx() < COMPONENT_KINDS by {
                lemma_idx_injective(t, t);
            }
        }
        assert(self@.components =~= old(self)@.despawned(id.0).components);
        proof {
            if old(self)@.consistent() {
                lemma_despawned_consistent(old(self)@, id.0);
            }
            if old(self)@.agrees() {
                lemma_despawned_agrees(old(self)@, id.0);
            }
        }
    }

    /// Add a component to an entity, updating the mask.
    pub fn add_component(&mut self, id: EntityId, component: Component<F>)
        ensures
            final(self)@ == old(self)@.with_component(id.0, component),
            old(self)@.consistent() && (old(self)@.live(id.0) || id.0 < old(self)@.next_id)
                ==> final(self)@.consistent(),
            old(self)@.agrees() && old(self)@.live(id.0) ==> final(self)@.agrees(),
    {
        let ty = component.component_type();
        self.insert_component_inner(id, component);
        match self.entities.get(&id.0) {
            Some(m) => {
                let mut mask = *m;
                mask.insert(ty);
                self.entities.insert(id.0, mask);
            },
            None => {},
        }
        assert(self@.entities =~= old(self)@.with_component(id.0, component).entities);
        assert(self@.components =~= old(self)@.with_component(id.0, component).components);
        proof {
            if old(self)@.consistent() && (old(self)@.live(id.0) || id.0 < old(self)@.next_id) {
                lemma_with_component_consistent(old(self)@, id.0, component);
            }
            if old(self)@.agrees() && old(self)@.live(id.0) {
                lemma_with_component_agrees(old(self)@, id.0, component);
            }
        }
    }

    fn insert_component_inner(&mut self, id: EntityId, component: Component<F>)
        ensures
            final(self)@ == (WorldModel {
                entities: old(self)@.entities,
                next_id: old(self)@.next_id,
                components: old(self)@.components.insert((id.0, component.kind()), component),
            }),
    {
        let ghost c = component;
        match component {
            Component::Position(x, y, z) => {
                self.positions.insert(id.0, (x, y, z));
            },
            Component::Velocity(x, y, z) => {
                self.velocities.insert(id.0, (x, y, z));
            },
            Component::Vibe(v) => {
                self.vibes.insert(id.0, v);
            },
            Component::Health(v) => {
                self.healths.insert(id.0, v);
            },
            Component::AgentAI(v) => {
                self.agent_ais.insert(id.0, v);
            },
            Component::Renderable(v) => {
                self.renderables.insert(id.0, v);
            },
            Component::Collider(v) => {
                self.colliders.insert(id.0, v);
            },
            Component::Inventory(v) => {
                self.inventories.insert(id.0, v);
            },
            Component::Pet(v) => {
                self.pets.insert(id.0, v);
            },
            Component::Dialogue(v) => {
                self.dialogues.insert(id.0, v);
            },
            Component::BiomeAffinity(v) => {
                self.biome_affinities.insert(id.0, v);
            },
            Component::Craftable(v) => {
                self.craftables.insert(id.0, v);
            },
            Component::QuestTarget(v) => {
                self.quest_targets.insert(id.0, v);
            },
        }
        assert(self@.components =~= old(self)@.components.insert((id.0, c.kind()), c));
    }

    fn remove_stored(&mut self, id: EntityId, comp_type: ComponentType)
        ensures
            final(self)@ == (WorldModel {
                entities: old(self)@.entities,
                next_id: old(self)@.next_id,
                components: old(self)@.components.remove((id.0, comp_type)),
            }),
    {
        match comp_type {
            ComponentType::Position => {
                self.positions.remove(&id.0);
            },
            ComponentType::Velocity => {
                self.velocities.remove(&id.0);
            },
            ComponentType::Vibe => {
                self.vibes.remove(&id.0);
            },
            ComponentType::Health => {
                self.healths.remove(&id.0);
            },
            ComponentType::AgentAI => {
                self.agent_ais.remove(&id.0);
            },
            ComponentType::Renderable => {
                self.renderables.remove(&id.0);
            },
            ComponentType::Collider => {
                self.colliders.remove(&id.0);
            },
            ComponentType::Inventory => {
                self.inventories.remove(&id.0);
            },
            ComponentType::Pet => {
                self.pets.remove(&id.0);
            },
            ComponentType::Dialogue => {
                self.dialogues.remove(&id.0);
            },
            ComponentType::BiomeAffinity => {
                self.biome_affinities.remove(&id.0);
            },
            ComponentType::Craftable => {
                self.craftables.remove(&id.0);
            },
            ComponentType::QuestTarget => {
                self.quest_targets.remove(&id.0);
            },
        }
        assert(self@.components =~= old(self)@.components.remove((id.0, comp_type)));
    }

    /// Remove a component from an entity.
    pub fn remove_component(&mut self, id: EntityId, comp_type: ComponentType)
        ensures
            final(self)@ == old(self)@.without_component(id.0, comp_type),
            old(self)@.consistent() ==> final(self)@.consistent(),
            old(self)@.agrees() ==> final(self)@.agrees(),
    {
        self.remove_stored(id, comp_type);
        match self.entities.get(&id.0) {
            Some(m) => {
                let mut mask = *m;
                mask.remove(comp_type);
                self.entities.insert(id.0, mask);
            },
            None => {},
        }
        assert(self@.entities =~= old(self)@.without_component(id.0, comp_type).entities);
        assert(self@.components =~= old(self)@.without_component(id.0, comp_type).components);
        proof {
            if old(self)@.consistent() {
                lemma_without_component_consistent(old(self)@, id.0, comp_type);
            }
            if old(self)@.agrees() {
                lemma_without_component_agrees(old(self)@, id.0, comp_type);
            }
        }
    }

    /// Check if an entity has the given component type.
    pub fn has_component(&self, id: EntityId, comp_type: ComponentType) -> (r: bool)
        ensures
            r == self@.has(id.0, comp_type),
    {
        match self.entities.get(&id.0) {
            Some(mask) => mask.has(comp_type),
            None => false,
        }
    }

    /// Get a copy of the component value for an entity, if present.
    pub fn get_component(&self, id: EntityId, comp_type: ComponentType) -> (r: Option<Component<F>>)
        where F: Copy,
        ensures
            match (r, self@.get(id.0, comp_type)) {
                (Some(a), Some(b)) => a.same(b) && a.kind() == comp_type,
                (None, None) => true,
                _ => false,
            },
    {
        match comp_type {
            ComponentType::Position => match self.positions.get(&id.0) {
                Some(p) => {
                    let (x, y, z) = *p;
                    Some(Component::Position(x, y, z))
                },
                None => None,
            },
            ComponentType::Velocity => match self.velocities.get(&id.0) {
                Some(p) => {
                    let (x, y, z) = *p;
                    Some(Component::Velocity(x, y, z))
                },
                None => None,
            },
            ComponentType::Vibe => match self.vibes.get(&id.0) {
                Some(v) => Some(Component::Vibe(*v)),
                None => None,
            },
            ComponentType::Health => match self.healths.get(&id.0) {
                Some(v) => Some(Component::Health(*v)),
                None => None,
            },
            ComponentType::AgentAI => match self.agent_ais.get(&id.0) {
                Some(v) => Some(Component::AgentAI(v.clone())),
                None => None,
            },
            ComponentType::Renderable => match self.renderables.get(&id.0) {
                Some(v) => Some(Component::Renderable(v.clone())),
                None => None,
            },
            ComponentType::Collider => match self.colliders.get(&id.0) {
                Some(v) => Some(Component::Collider(*v)),
                None => None,
            },
            ComponentType::Inventory => match self.inventories.get(&id.0) {
                Some(v) => Some(Component::Inventory(v.clone())),
                None => None,
            },
            ComponentType::Pet => match self.pets.get(&id.0) {
                Some(v) => Some(Component::Pet(v.clone())),
                None => None,
            },
            ComponentType::Dialogue => match self.dialogues.get(&id.0) {
                Some(v) => Some(Component::Dialogue(v.clone())),
                None => None,
            },
            ComponentType::BiomeAffinity => match self.biome_affinities.get(&id.0) {
                Some(v) => Some(Component::BiomeAffinity(v.clone())),
                None => None,
            },
            ComponentType::Craftable => match self.craftables.get(&id.0) {
                Some(v) => Some(Component::Craftable(v.clone())),
                None => None,
            },
            ComponentType::QuestTarget => match self.quest_targets.get(&id.0) {
                Some(v) => Some(Component::QuestTarget(v.clone())),
                None => None,
            },
        }
    }

    /// Query all entities whose component mask matches the given mask.
    pub fn query(&self, mask: ComponentMask) -> (r: Vec<EntityId>)
        ensures
            r@.no_duplicates(),
            forall|e: EntityId| r@.contains(e) <==> self@.selects(e.0, mask),
            mask.wf() ==> forall|e: EntityId| r@.contains(e) <==> (self@.live(e.0)
                && forall|t: ComponentType| mask.holds(t) ==> #[trigger] self@.has(e.0, t)),
    {
        let mut r: Vec<EntityId> = Vec::new();
        let ghost mut from: Seq<int> = Seq::empty();
        for k in it: self.entities.keys()
            invariant
                it.seq().no_duplicates(),
                r@.no_duplicates(),
                from.len() == r@.len(),
                forall|i: int| 0 <= i < r@.len() ==> self@.selects(#[trigger] r@[i].0, mask),
                forall|i: int| #![trigger from[i]] 0 <= i < r@.len() ==> 0 <= from[i] < it.index(),
                forall|i: int| #![trigger r@[i]] 0 <= i < r@.len() ==> r@[i].0 == *it.seq()[from[i]],
                forall|j: int| 0 <= j < it.index() && self@.selects(*it.seq()[j], mask)
                    ==> r@.contains(EntityId(*it.seq()[j])),
        {
            let ghost idx = it.index();
            let ghost before = r@;
            let ghost from_before = from;
            assert(*k == *it.seq()[idx]);
            match self.entities.get(k) {
                Some(m) => {
                    if m.matches(&mask) {
                        proof {
                            assert forall|i: int| 0 <= i < before.len() implies before[i] != EntityId(*k) by {
                                assert(r@[i] == before[i]);
                                assert(it.seq()[from[i]] != it.seq()[idx]);
                            }
                            from = from.push(idx);
                        }
                        r.push(EntityId(*k));
                    }
                },
                None => {},
            }
            proof {
                assert forall|i: int| 0 <= i < r@.len() implies
                    0 <= from[i] < idx + 1 && (#[trigger] r@[i]).0 == *it.seq()[from[i]] by {
                    if i < before.len() {
                        assert(r@[i] == before[i]);
                        assert(from[i] == from_before[i]);
                    }
                }
                assert forall|i: int| 0 <= i < r@.len() implies self@.selects(#[trigger] r@[i].0, mask) by {
                    if i < before.len() {
                        assert(r@[i] == before[i]);
                    }
                }
                assert forall|j: int| 0 <= j < idx + 1 && self@.selects(*it.seq()[j], mask)
                    implies r@.contains(EntityId(*it.seq()[j])) by {
                    if j < idx {
                        let x = EntityId(*it.seq()[j]);
                        assert(before.contains(x));
                        let i: int = choose|i: int| 0 <= i < before.len() && before[i] == x;
                        assert(r@[i] == x);
                    } else {
                        assert(r@[r@.len() - 1] == EntityId(*it.seq()[j]));
                    }
                }
            }
        }
        proof {
            if mask.wf() {
                assert forall|e: EntityId| self@.live(e.0) implies (self@.selects(e.0, mask) <==>
                    forall|t: ComponentType| mask.holds(t) ==> #[trigger] self@.has(e.0, t)) by {
                    let m = self@.entities[e.0];
                    lemma_contains_kinds(m, mask);
                    if self@.selects(e.0, mask) {
                        assert forall|t: ComponentType| mask.holds(t) implies #[trigger] self@.has(e.0, t) by {
                            assert(mask.holds(t) ==> m.holds(t));
                        }
                    }
                    if forall|t: ComponentType| mask.holds(t) ==> #[trigger] self@.has(e.0, t) {
                        assert forall|t: ComponentType| mask.holds(t) implies m.holds(t) by {
                            assert(self@.has(e.0, t));
                        }
                    }
                }
            }
        }
        r
    }

    /// Return the next entity ID counter (useful for tests / inspection).
    pub fn next_id(&self) -> (r: u64)
        ensures
            r == self@.next_id,
    {
        self.next_id
    }
}

/// Adding a component keeps a world consistent, unless the identifier is one
/// that has not been handed out yet.
pub proof fn lemma_with_component_consistent<F>(m: WorldModel<F>, id: u64, c: Component<F>)
    requires
        m.consistent(),
        m.live(id) || id < m.next_id,
    ensures
        m.with_component(id, c).consistent(),
{
    let n = m.with_component(id, c);
    assert forall|k: u64, t: ComponentType| n.live(k) implies (n.has(k, t) <==> n.stores(k, t)) by {
        assert(m.live(k));
        assert(m.has(k, t) <==> m.stores(k, t));
        if k == id {
            ComponentMask::lemma_added(m.entities[id], c.kind(), t);
        } else {
            assert(n.entities[k] == m.entities[k]);
            assert(m.has(k, t) <==> m.stores(k, t));
        }
    }
    assert forall|k: u64, t: ComponentType| #[trigger] n.stores(k, t) implies k < n.next_id by {
        if k != id || t != c.kind() {
            assert(m.stores(k, t));
        }
    }
    assert forall|k: u64| #[trigger] n.live(k) implies 1 <= k < n.next_id && n.entities[k].wf() by {
        assert(m.live(k));
        if k == id {
            ComponentMask::lemma_added(m.entities[id], c.kind(), c.kind());
        }
    }
}

/// Removing a component keeps a world consistent.
pub proof fn lemma_without_component_consistent<F>(m: WorldModel<F>, id: u64, t: ComponentType)
    requires
        m.consistent(),
    ensures
        m.without_component(id, t).consistent(),
{
    let n = m.without_component(id, t);
    assert forall|k: u64, u: ComponentType| n.live(k) implies (n.has(k, u) <==> n.stores(k, u)) by {
        assert(m.live(k));
        assert(m.has(k, u) <==> m.stores(k, u));
        if k == id {
            ComponentMask::lemma_removed(m.entities[id], t, u);
        } else {
            assert(n.entities[k] == m.entities[k]);
            assert(m.has(k, u) <==> m.stores(k, u));
        }
    }
    assert forall|k: u64, u: ComponentType| #[trigger] n.stores(k, u) implies k < n.next_id by {
        assert(m.stores(k, u));
    }
    assert forall|k: u64| #[trigger] n.live(k) implies 1 <= k < n.next_id && n.entities[k].wf() by {
        assert(m.live(k));
        if k == id {
            ComponentMask::lemma_removed(m.entities[id], t, t);
        }
    }
}

/// Spawning keeps a world consistent.
pub proof fn lemma_spawned_consistent<F>(m: WorldModel<F>)
    requires
        m.consistent(),
        m.next_id < u64::MAX,
    ensures
        m.spawned().consistent(),
{
    let n = m.spawned();
    let id = m.next_id as u64;
    assert forall|k: u64, t: ComponentType| n.live(k) implies (n.has(k, t) <==> n.stores(k, t)) by {
        if k == id {
            assert(!m.stores(k, t));
        } else {
            assert(m.has(k, t) <==> m.stores(k, t));
        }
    }
    assert forall|k: u64| #[trigger] n.live(k) implies 1 <= k < n.next_id && n.entities[k].wf() by {
        if k != id {
            assert(m.live(k));
        } else {
            ComponentMask::lemma_empty(ComponentType::Position);
        }
    }
    assert forall|k: u64, t: ComponentType| #[trigger] n.stores(k, t) implies k < n.next_id by {
        assert(m.stores(k, t));
    }
}

/// Despawning keeps a world consistent.
pub proof fn lemma_despawned_consistent<F>(m: WorldModel<F>, id: u64)
    requires
        m.consistent(),
    ensures
        m.despawned(id).consistent(),
{
    let n = m.despawned(id);
    if m.live(id) {
        assert forall|k: u64, t: ComponentType| n.live(k) implies (n.has(k, t) <==> n.stores(k, t)) by {
            assert(m.has(k, t) <==> m.stores(k, t));
        }
        assert forall|k: u64| #[trigger] n.live(k) implies 1 <= k < n.next_id && n.entities[k].wf() by {
            assert(m.live(k));
        }
        assert forall|k: u64, t: ComponentType| #[trigger] n.stores(k, t) implies k < n.next_id by {
            assert(m.stores(k, t));
        }
    }
}

/// Spawning keeps the masks and the stores in agreement.
pub proof fn lemma_spawned_agrees<F>(m: WorldModel<F>)
    requires
        m.agrees(),
        m.next_id < u64::MAX,
    ensures
        m.spawned().agrees(),
{
    lemma_spawned_consistent(m);
    let n = m.spawned();
    assert forall|k: u64, t: ComponentType| #[trigger] n.stores(k, t) implies n.live(k) by {
        assert(m.stores(k, t));
    }
}

/// Despawning keeps the masks and the stores in agreement.
pub proof fn lemma_despawned_agrees<F>(m: WorldModel<F>, id: u64)
    requires
        m.agrees(),
    ensures
        m.despawned(id).agrees(),
{
    lemma_despawned_consistent(m, id);
    let n = m.despawned(id);
    if m.live(id) {
        assert forall|k: u64, t: ComponentType| #[trigger] n.stores(k, t) implies n.live(k) by {
            assert(m.stores(k, t));
            if k == id {
                assert(m.has(k, t) <==> m.stores(k, t));
            }
        }
    }
}

/// Adding a component to a live entity keeps the masks and the stores in
/// agreement.
pub proof fn lemma_with_component_agrees<F>(m: WorldModel<F>, id: u64, c: Component<F>)
    requires
        m.agrees(),
        m.live(id),
    ensures
        m.with_component(id, c).agrees(),
{
    lemma_with_component_consistent(m, id, c);
    let n = m.with_component(id, c);
    assert forall|k: u64, t: ComponentType| #[trigger] n.stores(k, t) implies n.live(k) by {
        if k != id || t != c.kind() {
            assert(m.stores(k, t));
        }
    }
}

/// Removing a component keeps the masks and the stores in agreement.
pub proof fn lemma_without_component_agrees<F>(m: WorldModel<F>, id: u64, t: ComponentType)
    requires
        m.agrees(),
    ensures
        m.without_component(id, t).agrees(),
{
    lemma_without_component_consistent(m, id, t);
    let n = m.without_component(id, t);
    assert forall|k: u64, u: ComponentType| #[trigger] n.stores(k, u) implies n.live(k) by {
        assert(m.stores(k, u));
    }
}

} // verus!
