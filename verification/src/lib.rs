//! A small entity-component-system: entity identifiers, component bit masks,
//! a world that keeps sparse per-component storage, and the systems that run
//! over it.

pub mod component;
pub mod data;
pub mod entity;
pub mod laws;
pub mod mask;
pub mod systems;
pub mod world;

pub use component::Component;
pub use data::{
    AgentState, ColliderShape, CraftRecipe, DialogueState, InventoryData, PetData, QuestData,
    RenderInfo,
};
pub use entity::EntityId;
pub use mask::{ComponentMask, ComponentType};
pub use systems::{CollisionSystem, MovementSystem};
pub use world::{World, WorldModel};
