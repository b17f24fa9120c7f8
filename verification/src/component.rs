use crate::data::{
    AgentState, ColliderShape, CraftRecipe, DialogueState, InventoryData, PetData, QuestData,
    RenderInfo,
};
use crate::mask::ComponentType;
use vstd::prelude::*;

verus! {

/// Runtime representation of any component value.
#[derive(Debug)]
pub enum Component<F> {
    Position(F, F, F),
    Velocity(F, F, F),
    Vibe(F),
    Health(F),
    AgentAI(AgentState<F>),
    Renderable(RenderInfo<F>),
    Collider(ColliderShape<F>),
    Inventory(InventoryData),
    Pet(PetData<F>),
    Dialogue(DialogueState<F>),
    BiomeAffinity(String),
    Craftable(CraftRecipe),
    QuestTarget(QuestData<F>),
}

impl<F> Component<F> {
    /// The kind of this component.
    pub open spec fn kind(self) -> ComponentType {
        match self {
            Component::Position(..) => ComponentType::Position,
            Component::Velocity(..) => ComponentType::Velocity,
            Component::Vibe(..) => ComponentType::Vibe,
            Component::Health(..) => ComponentType::Health,
            Component::AgentAI(..) => ComponentType::AgentAI,
            Component::Renderable(..) => ComponentType::Renderable,
            Component::Collider(..) => ComponentType::Collider,
            Component::Inventory(..) => ComponentType::Inventory,
            Component::Pet(..) => ComponentType::Pet,
            Component::Dialogue(..) => ComponentType::Dialogue,
            Component::BiomeAffinity(..) => ComponentType::BiomeAffinity,
            Component::Craftable(..) => ComponentType::Craftable,
            Component::QuestTarget(..) => ComponentType::QuestTarget,
        }
    }

    /// The same component: equal, with strings compared by their text.
    pub open spec fn same(self, other: Self) -> bool {
        match (self, other) {
            (Component::AgentAI(a), Component::AgentAI(b)) => a.same(b),
            (Component::Renderable(a), Component::Renderable(b)) => a.same(b),
            (Component::Inventory(a), Component::Inventory(b)) => a.same(b),
            (Component::Pet(a), Component::Pet(b)) => a.same(b),
            (Component::Dialogue(a), Component::Dialogue(b)) => a.same(b),
            (Component::BiomeAffinity(a), Component::BiomeAffinity(b)) => a@ == b@,
            (Component::Craftable(a), Component::Craftable(b)) => a.same(b),
            (Component::QuestTarget(a), Component::QuestTarget(b)) => a.same(b),
            _ => self == other,
        }
    }

    /// The kind of this component.
    pub fn component_type(&self) -> (r: ComponentType)
        ensures
            r == self.kind(),
    {
        match self {
            Self::Position(..) => ComponentType::Position,
            Self::Velocity(..) => ComponentType::Velocity,
            Self::Vibe(..) => ComponentType::Vibe,
            Self::Health(..) => ComponentType::Health,
            Self::AgentAI(..) => ComponentType::AgentAI,
            Self::Renderable(..) => ComponentType::Renderable,
            Self::Collider(..) => ComponentType::Collider,
            Self::Inventory(..) => ComponentType::Inventory,
            Self::Pet(..) => ComponentType::Pet,
            Self::Dialogue(..) => ComponentType::Dialogue,
            Self::BiomeAffinity(..) => ComponentType::BiomeAffinity,
            Self::Craftable(..) => ComponentType::Craftable,
            Self::QuestTarget(..) => ComponentType::QuestTarget,
        }
    }
}

impl<F: Copy> Clone for Component<F> {
    fn clone(&self) -> (r: Self)
        ensures
            r.same(*self),
            r.kind() == self.kind(),
    {
        match self {
            Component::Position(x, y, z) => Component::Position(*x, *y, *z),
            Component::Velocity(x, y, z) => Component::Velocity(*x, *y, *z),
            Component::Vibe(v) => Component::Vibe(*v),
            Component::Health(h) => Component::Health(*h),
            Component::AgentAI(a) => Component::AgentAI(a.clone()),
            Component::Renderable(r) => Component::Renderable(r.clone()),
            Component::Collider(c) => Component::Collider(*c),
            Component::Inventory(i) => Component::Inventory(i.clone()),
            Component::Pet(p) => Component::Pet(p.clone()),
            Component::Dialogue(d) => Component::Dialogue(d.clone()),
            Component::BiomeAffinity(b) => Component::BiomeAffinity(b.clone()),
            Component::Craftable(c) => Component::Craftable(c.clone()),
            Component::QuestTarget(q) => Component::QuestTarget(q.clone()),
        }
    }
}

} // verus!
