use std::collections::HashMap;
use tiny_ecs::{
    AgentState, ColliderShape, Component, ComponentType, CraftRecipe, DialogueState, InventoryData,
    PetData, QuestData, RenderInfo,
};

// -----------------------------------------------------------------------
// Component type defaults / construction
// -----------------------------------------------------------------------

#[test]
fn agent_state_default() {
    let state = AgentState::<f64>::default();
    assert_eq!(state.program_counter, 0);
    assert!(state.stack.is_empty());
    assert_eq!(state.state, "idle");
}

#[test]
fn render_info_default() {
    let info = RenderInfo::<f64>::default();
    assert_eq!(info.sprite, "default");
    assert!((info.scale - 1.0).abs() < 1e-10);
    assert_eq!(info.layer, 0);
}

#[test]
fn inventory_default() {
    let inv = InventoryData::default();
    assert!(inv.items.is_empty());
    assert_eq!(inv.capacity, 10);
}

#[test]
fn pet_data_default() {
    let pet = PetData::<f64>::default();
    assert_eq!(pet.species, "unknown");
    assert!((pet.happiness - 50.0).abs() < 1e-10);
    assert_eq!(pet.evolution_stage, 1);
}

#[test]
fn dialogue_state_default() {
    let d = DialogueState::<f64>::default();
    assert_eq!(d.current_node, "start");
    assert!((d.mood - 0.0).abs() < 1e-10);
    assert!(d.history.is_empty());
}

#[test]
fn quest_data_default() {
    let q = QuestData::<f64>::default();
    assert!(q.quest_id.is_empty());
    assert!((q.progress - 0.0).abs() < 1e-10);
    assert!(!q.completed);
}

#[test]
fn component_type_roundtrip() {
    let cases: Vec<Component<f64>> = vec![
        Component::Position(1.0, 2.0, 3.0),
        Component::Velocity(4.0, 5.0, 6.0),
        Component::Vibe(7.0),
        Component::Health(8.0),
        Component::AgentAI(AgentState::default()),
        Component::Renderable(RenderInfo::default()),
        Component::Collider(ColliderShape::Circle { r: 1.0 }),
        Component::Inventory(InventoryData {
            items: [("rock".into(), 3)].into(),
            capacity: 20,
        }),
        Component::Pet(PetData {
            species: "cat".into(),
            happiness: 90.0,
            evolution_stage: 2,
        }),
        Component::Dialogue(DialogueState {
            current_node: "greeting".into(),
            mood: 0.5,
            history: vec!["hello".into()],
        }),
        Component::BiomeAffinity("forest".into()),
        Component::Craftable(CraftRecipe {
            inputs: [("wood".into(), 3)].into(),
            output: "plank".into(),
            tick_cost: 5,
        }),
        Component::QuestTarget(QuestData {
            quest_id: "q001".into(),
            progress: 0.5,
            completed: false,
        }),
    ];

    for comp in &cases {
        let ty = comp.component_type();
        match comp {
            Component::Position(..) => assert_eq!(ty, ComponentType::Position),
            Component::Velocity(..) => assert_eq!(ty, ComponentType::Velocity),
            Component::Vibe(..) => assert_eq!(ty, ComponentType::Vibe),
            Component::Health(..) => assert_eq!(ty, ComponentType::Health),
            Component::AgentAI(..) => assert_eq!(ty, ComponentType::AgentAI),
            Component::Renderable(..) => assert_eq!(ty, ComponentType::Renderable),
            Component::Collider(..) => assert_eq!(ty, ComponentType::Collider),
            Component::Inventory(..) => assert_eq!(ty, ComponentType::Inventory),
            Component::Pet(..) => assert_eq!(ty, ComponentType::Pet),
            Component::Dialogue(..) => assert_eq!(ty, ComponentType::Dialogue),
            Component::BiomeAffinity(..) => assert_eq!(ty, ComponentType::BiomeAffinity),
            Component::Craftable(..) => assert_eq!(ty, ComponentType::Craftable),
            Component::QuestTarget(..) => assert_eq!(ty, ComponentType::QuestTarget),
        }
    }
}

// -----------------------------------------------------------------------
// ColliderShape constructors
// -----------------------------------------------------------------------

#[test]
fn collider_shapes() {
    let box_s = ColliderShape::Box { w: 10.0, h: 20.0 };
    if let ColliderShape::Box { w, h } = box_s {
        assert!((w - 10.0f64).abs() < 1e-10);
        assert!((h - 20.0f64).abs() < 1e-10);
    } else {
        panic!("not box");
    }

    let circle = ColliderShape::Circle { r: 5.0 };
    if let ColliderShape::Circle { r } = circle {
        assert!((r - 5.0f64).abs() < 1e-10);
    } else {
        panic!("not circle");
    }

    assert!(matches!(ColliderShape::<f64>::Point, ColliderShape::Point));
}

// -----------------------------------------------------------------------
// CraftRecipe and component interaction
// -----------------------------------------------------------------------

#[test]
fn craft_recipe_fields() {
    let recipe = CraftRecipe {
        inputs: [("iron_ore".into(), 3)].into(),
        output: "iron_ingot".into(),
        tick_cost: 10,
    };
    assert_eq!(recipe.inputs.get("iron_ore"), Some(&3));
    assert_eq!(recipe.output, "iron_ingot");
    assert_eq!(recipe.tick_cost, 10);
}

// -----------------------------------------------------------------------
// Inventory / Pet / Dialogue / Quest full roundtrips
// -----------------------------------------------------------------------

#[test]
fn inventory_add_items() {
    let mut inv = InventoryData::default();
    inv.items.insert("apple".into(), 5);
    inv.items.insert("bread".into(), 2);
    assert_eq!(inv.items.len(), 2);
    assert_eq!(*inv.items.get("apple").unwrap(), 5);
}

#[test]
fn pet_data_happiness() {
    let pet = PetData {
        happiness: 100.0,
        evolution_stage: 3,
        ..PetData::default()
    };
    assert_eq!(pet.species, "unknown");
    assert!((pet.happiness - 100.0f64).abs() < 1e-10);
    assert_eq!(pet.evolution_stage, 3);
    assert_eq!(pet.species, "unknown");
}

#[test]
fn dialogue_history() {
    let d = DialogueState {
        mood: -1.0,
        current_node: "farewell".into(),
        history: vec!["hello".into(), "goodbye".into()],
    };
    assert_eq!(d.history.len(), 2);
    assert_eq!(d.current_node, "farewell");
    assert!(!d.history.is_empty());
    assert!((d.mood - -1.0f64).abs() < 1e-10);
}

#[test]
fn quest_target_progress() {
    let mut quest = QuestData {
        quest_id: "q002".into(),
        progress: 0.0,
        completed: false,
    };
    quest.progress = 1.0;
    quest.completed = true;
    assert!(quest.completed);
    assert!((quest.progress - 1.0f64).abs() < 1e-10);
}

// -----------------------------------------------------------------------
// Further cases: clones keep every field
// -----------------------------------------------------------------------

#[test]
fn clones_keep_every_field() {
    let agent = AgentState { program_counter: 7, stack: vec![1.5f64, -2.0], state: "run".to_string() };
    let a2 = agent.clone();
    assert_eq!(a2.program_counter, 7);
    assert_eq!(a2.stack, vec![1.5, -2.0]);
    assert_eq!(a2.state, "run");

    let mut items = HashMap::new();
    items.insert("gem".to_string(), 4u32);
    let inv = InventoryData { items, capacity: 3 };
    let inv2 = inv.clone();
    assert_eq!(inv2.items.get("gem"), Some(&4));
    assert_eq!(inv2.capacity, 3);

    let d = DialogueState { current_node: "n".to_string(), mood: 0.25f64, history: vec!["a".into(), "b".into()] };
    let d2 = d.clone();
    assert_eq!(d2.history, vec!["a".to_string(), "b".to_string()]);
    assert_eq!(d2.current_node, "n");
    assert_eq!(d2.mood, 0.25);

    let c: Component<f64> = Component::Craftable(CraftRecipe {
        inputs: [("wood".into(), 2)].into(),
        output: "stick".into(),
        tick_cost: 1,
    });
    match c.clone() {
        Component::Craftable(r) => {
            assert_eq!(r.output, "stick");
            assert_eq!(r.inputs.get("wood"), Some(&2));
            assert_eq!(r.tick_cost, 1);
        }
        _ => panic!("wrong variant"),
    }
}
