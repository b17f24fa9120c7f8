//! The data that components carry.  The numeric quantities (coordinates,
//! scales, moods, progress) are of a type parameter `F`, which programs
//! instantiate with a floating-point type.
use std::collections::HashMap;
use vstd::prelude::*;

verus! {

/// Copy of a vector of plain values, element by element.
fn copy_vec<F: Copy>(v: &Vec<F>) -> (r: Vec<F>)
    ensures
        r@ == v@,
{
    let mut r: Vec<F> = Vec::new();
    let mut i: usize = 0;
    while i < v.len()
        invariant
            i <= v.len(),
            r@ == v@.subrange(0, i as int),
        decreases v.len() - i,
    {
        r.push(v[i]);
        i = i + 1;
    }
    r
}

/// Two vectors of strings with the same texts, position by position.
pub open spec fn same_texts(a: Seq<String>, b: Seq<String>) -> bool {
    &&& a.len() == b.len()
    &&& forall|j: int| 0 <= j < a.len() ==> #[trigger] a[j]@ == b[j]@
}

/// Copy of a vector of strings, string by string.
fn copy_strings(v: &Vec<String>) -> (r: Vec<String>)
    ensures
        same_texts(r@, v@),
{
    let mut r: Vec<String> = Vec::new();
    let mut i: usize = 0;
    while i < v.len()
        invariant
            i <= v.len(),
            r@.len() == i,
            forall|j: int| 0 <= j < i ==> #[trigger] r@[j]@ == v@[j]@,
        decreases v.len() - i,
    {
        let s = v[i].clone();
        r.push(s);
        i = i + 1;
    }
    r
}

/// The state of an agent's small stack machine.
#[derive(Debug)]
pub struct AgentState<F> {
    pub program_counter: usize,
    pub stack: Vec<F>,
    pub state: String,
}

impl<F> AgentState<F> {
    /// Equal field by field, strings compared by their text.
    pub open spec fn same(self, other: Self) -> bool {
        &&& self.program_counter == other.program_counter
        &&& self.stack@ == other.stack@
        &&& self.state@ == other.state@
    }
}

impl<F> Default for AgentState<F> {
    fn default() -> (r: Self)
        ensures
            r.program_counter == 0,
            r.stack@.len() == 0,
            r.state@ == "idle"@,
    {
        AgentState { program_counter: 0, stack: Vec::new(), state: "idle".to_owned() }
    }
}

impl<F: Copy> Clone for AgentState<F> {
    fn clone(&self) -> (r: Self)
        ensures
            r.same(*self),
    {
        AgentState {
            program_counter: self.program_counter,
            stack: copy_vec(&self.stack),
            state: self.state.clone(),
        }
    }
}

/// How an entity is drawn.
#[derive(Debug)]
pub struct RenderInfo<F> {
    pub sprite: String,
    pub scale: F,
    pub layer: u32,
}

impl<F> RenderInfo<F> {
    /// Equal field by field, strings compared by their text.
    pub open spec fn same(self, other: Self) -> bool {
        &&& self.sprite@ == other.sprite@
        &&& self.scale == other.scale
        &&& self.layer == other.layer
    }
}

impl<F: From<u8>> Default for RenderInfo<F> {
    fn default() -> (r: Self)
        ensures
            r.sprite@ == "default"@,
            call_ensures(F::from, (1u8,), r.scale),
            r.layer == 0,
    {
        RenderInfo { sprite: "default".to_owned(), scale: F::from(1u8), layer: 0 }
    }
}

impl<F: Copy> Clone for RenderInfo<F> {
    fn clone(&self) -> (r: Self)
        ensures
            r.same(*self),
    {
        RenderInfo { sprite: self.sprite.clone(), scale: self.scale, layer: self.layer }
    }
}

/// The shape an entity occupies for collision detection, centred on its
/// position.
#[derive(Debug, Copy, Clone)]
pub enum ColliderShape<F> {
    Box { w: F, h: F },
    Circle { r: F },
    Point,
}

/// What an entity carries: item names with their counts, up to a capacity.
#[derive(Debug)]
pub struct InventoryData {
    pub items: HashMap<String, u32>,
    pub capacity: u32,
}

impl InventoryData {
    /// Equal field by field.
    pub open spec fn same(self, other: Self) -> bool {
        &&& self.items@ == other.items@
        &&& self.capacity == other.capacity
    }
}

impl Default for InventoryData {
    fn default() -> (r: Self)
        ensures
            r.items@ == Map::<String, u32>::empty(),
            r.capacity == 10,
    {
        InventoryData { items: HashMap::new(), capacity: 10 }
    }
}

impl Clone for InventoryData {
    fn clone(&self) -> (r: Self)
        ensures
            r.same(*self),
    {
        InventoryData { items: self.items.clone(), capacity: self.capacity }
    }
}

/// A pet's species, mood and growth.
#[derive(Debug)]
pub struct PetData<F> {
    pub species: String,
    pub happiness: F,
    pub evolution_stage: u32,
}

impl<F> PetData<F> {
    /// Equal field by field, strings compared by their text.
    pub open spec fn same(self, other: Self) -> bool {
        &&& self.species@ == other.species@
        &&& self.happiness == other.happiness
        &&& self.evolution_stage == other.evolution_stage
    }
}

impl<F: From<u8>> Default for PetData<F> {
    fn default() -> (r: Self)
        ensures
            r.species@ == "unknown"@,
            call_ensures(F::from, (50u8,), r.happiness),
            r.evolution_stage == 1,
    {
        PetData { species: "unknown".to_owned(), happiness: F::from(50u8), evolution_stage: 1 }
    }
}

impl<F: Copy> Clone for PetData<F> {
    fn clone(&self) -> (r: Self)
        ensures
            r.same(*self),
    {
        PetData {
            species: self.species.clone(),
            happiness: self.happiness,
            evolution_stage: self.evolution_stage,
        }
    }
}

/// Where a conversation stands, its mood and what has been said.
#[derive(Debug)]
pub struct DialogueState<F> {
    pub current_node: String,
    pub mood: F,
    pub history: Vec<String>,
}

impl<F> DialogueState<F> {
    /// Equal field by field, strings compared by their text.
    pub open spec fn same(self, other: Self) -> bool {
        &&& self.current_node@ == other.current_node@
        &&& self.mood == other.mood
        &&& same_texts(self.history@, other.history@)
    }
}

impl<F: From<u8>> Default for DialogueState<F> {
    fn default() -> (r: Self)
        ensures
            r.current_node@ == "start"@,
            call_ensures(F::from, (0u8,), r.mood),
            r.history@.len() == 0,
    {
        DialogueState { current_node: "start".to_owned(), mood: F::from(0u8), history: Vec::new() }
    }
}

impl<F: Copy> Clone for DialogueState<F> {
    fn clone(&self) -> (r: Self)
        ensures
            r.same(*self),
    {
        DialogueState {
            current_node: self.current_node.clone(),
            mood: self.mood,
            history: copy_strings(&self.history),
        }
    }
}

/// A recipe: the items it consumes, what it yields and how many ticks it takes.
#[derive(Debug)]
pub struct CraftRecipe {
    pub inputs: HashMap<String, u32>,
    pub output: String,
    pub tick_cost: u64,
}

impl CraftRecipe {
    /// Equal field by field, strings compared by their text.
    pub open spec fn same(self, other: Self) -> bool {
        &&& self.inputs@ == other.inputs@
        &&& self.output@ == other.output@
        &&& self.tick_cost == other.tick_cost
    }
}

impl Clone for CraftRecipe {
    fn clone(&self) -> (r: Self)
        ensures
            r.same(*self),
    {
        CraftRecipe {
            inputs: self.inputs.clone(),
            output: self.output.clone(),
            tick_cost: self.tick_cost,
        }
    }
}

/// A quest an entity is the target of, and how far it has come.
#[derive(Debug)]
pub struct QuestData<F> {
    pub quest_id: String,
    pub progress: F,
    pub completed: bool,
}

impl<F> QuestData<F> {
    /// Equal field by field, strings compared by their text.
    pub open spec fn same(self, other: Self) -> bool {
        &&& self.quest_id@ == other.quest_id@
        &&& self.progress == other.progress
        &&& self.completed == other.completed
    }
}

impl<F: From<u8>> Default for QuestData<F> {
    fn default() -> (r: Self)
        ensures
            r.quest_id@.len() == 0,
            call_ensures(F::from, (0u8,), r.progress),
            !r.completed,
    {
        QuestData { quest_id: String::new(), progress: F::from(0u8), completed: false }
    }
}

impl<F: Copy> Clone for QuestData<F> {
    fn clone(&self) -> (r: Self)
        ensures
            r.same(*self),
    {
        QuestData {
            quest_id: self.quest_id.clone(),
            progress: self.progress,
            completed: self.completed,
        }
    }
}

} // verus!
