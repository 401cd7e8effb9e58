use engine::game_state::{EntityMap, GameState};
use engine::generational_index::{GenerationalIndex, GenerationalIndexAllocator, GenerationalIndexArray};

#[derive(Debug, Clone, PartialEq)]
struct Position {
    x: i32,
}

#[derive(Debug, Clone, PartialEq)]
struct Color {
    rgb: (u8, u8, u8),
}

#[derive(Debug, Clone, PartialEq)]
struct Velocity {
    dx: i32,
}

#[derive(Debug, Clone, PartialEq)]
struct Health {
    points: u32,
}

#[test]
fn allocate_fresh_slots_in_order() {
    let mut a = GenerationalIndexAllocator::new();
    for i in 0..3usize {
        let h = a.allocate();
        assert_eq!(h, GenerationalIndex::new(i, 0));
    }
    assert_eq!(a.len(), 3);
}

#[test]
fn retired_handle_never_live_again() {
    let mut a = GenerationalIndexAllocator::new();
    let h = a.allocate();
    assert!(a.is_live(&h));
    assert!(a.deallocate(&h));
    assert!(!a.is_live(&h));
    let h2 = a.allocate();
    assert_eq!(h2.index(), h.index());
    assert!(!a.is_live(&h));
    assert!(a.is_live(&h2));
}

#[test]
fn reused_slot_has_larger_generation() {
    let mut a = GenerationalIndexAllocator::new();
    let h = a.allocate();
    let _other = a.allocate();
    assert!(a.deallocate(&h));
    let h2 = a.allocate();
    assert_eq!(h2.index(), h.index());
    assert!(h2.generation() > h.generation());
    assert!(a.deallocate(&h2));
    let h3 = a.allocate();
    assert_eq!(h3, GenerationalIndex::new(0, 2));
}

#[test]
fn double_deallocate_is_refused() {
    let mut a = GenerationalIndexAllocator::new();
    let h = a.allocate();
    assert!(a.deallocate(&h));
    assert!(!a.deallocate(&h));
    let h2 = a.allocate();
    assert_eq!(h2.generation(), 1);
    let fresh = a.allocate();
    assert_eq!(fresh, GenerationalIndex::new(1, 0));
}

#[test]
fn deallocate_unknown_slot_is_refused() {
    let mut a = GenerationalIndexAllocator::new();
    assert!(!a.deallocate(&GenerationalIndex::new(4, 0)));
    assert!(!a.is_live(&GenerationalIndex::new(4, 0)));
    assert_eq!(a.len(), 0);
}

#[test]
fn freed_slots_are_reused_last_freed_first() {
    let mut a = GenerationalIndexAllocator::new();
    let h0 = a.allocate();
    let h1 = a.allocate();
    assert!(a.deallocate(&h0));
    assert!(a.deallocate(&h1));
    assert_eq!(a.allocate(), GenerationalIndex::new(1, 1));
    assert_eq!(a.allocate(), GenerationalIndex::new(0, 1));
    assert_eq!(a.allocate(), GenerationalIndex::new(2, 0));
}

#[test]
fn stale_generation_reads_nothing() {
    let mut arr: GenerationalIndexArray<u32> = GenerationalIndexArray::new();
    arr.set(&GenerationalIndex::new(1, 3), 10);
    assert_eq!(arr.get(&GenerationalIndex::new(1, 2)), None);
    assert_eq!(arr.get(&GenerationalIndex::new(1, 4)), None);
    assert_eq!(arr.get(&GenerationalIndex::new(0, 3)), None);
    assert_eq!(arr.get(&GenerationalIndex::new(0, 0)), None);
    assert_eq!(arr.get(&GenerationalIndex::new(9, 3)), None);
    assert_eq!(arr.get(&GenerationalIndex::new(1, 3)), Some(&10));
}

#[test]
fn set_then_get_round_trip() {
    let mut arr: GenerationalIndexArray<u32> = GenerationalIndexArray::new();
    let h = GenerationalIndex::new(4, 1);
    arr.set(&h, 42);
    assert_eq!(arr.len(), 5);
    assert_eq!(arr.get(&h), Some(&42));
    arr.set(&h, 43);
    assert_eq!(arr.get(&h), Some(&43));
    let other = GenerationalIndex::new(2, 0);
    arr.set(&other, 7);
    assert_eq!(arr.get(&h), Some(&43));
    assert_eq!(arr.get(&other), Some(&7));
    assert_eq!(arr.len(), 5);
}

#[test]
fn set_overwrites_other_generation() {
    let mut arr: GenerationalIndexArray<u32> = GenerationalIndexArray::new();
    arr.set(&GenerationalIndex::new(0, 0), 1);
    arr.set(&GenerationalIndex::new(0, 1), 2);
    assert_eq!(arr.get(&GenerationalIndex::new(0, 0)), None);
    assert_eq!(arr.get(&GenerationalIndex::new(0, 1)), Some(&2));
}

#[test]
fn get_mut_changes_value_in_place() {
    let mut arr: GenerationalIndexArray<u32> = GenerationalIndexArray::new();
    let h = GenerationalIndex::new(0, 0);
    arr.set(&h, 1);
    if let Some(v) = arr.get_mut(&h) {
        *v = 5;
    }
    assert_eq!(arr.get(&h), Some(&5));
    assert!(arr.get_mut(&GenerationalIndex::new(0, 1)).is_none());
}

#[test]
fn remove_clears_only_matching_generation() {
    let mut arr: GenerationalIndexArray<u32> = GenerationalIndexArray::new();
    let h = GenerationalIndex::new(1, 2);
    arr.set(&h, 8);
    arr.remove(&GenerationalIndex::new(1, 1));
    assert_eq!(arr.get(&h), Some(&8));
    arr.remove(&h);
    assert_eq!(arr.get(&h), None);
    assert_eq!(arr.len(), 2);
}

#[test]
fn set_empty_appends_absent_slot() {
    let mut arr: GenerationalIndexArray<u32> = GenerationalIndexArray::new();
    arr.set_empty();
    assert_eq!(arr.len(), 1);
    assert_eq!(arr.get(&GenerationalIndex::new(0, 0)), None);
}

#[test]
fn sync_registry_is_idempotent() {
    let mut state = GameState::create_initial_state();
    for _ in 0..4 {
        GameState::create_entity(&mut state).build();
    }
    let mut arr: EntityMap<u32> = GenerationalIndexArray::new();
    GameState::sync_registry(state.entities(), &mut arr);
    assert_eq!(arr.len(), 4);
    GameState::sync_registry(state.entities(), &mut arr);
    assert_eq!(arr.len(), 4);
    arr.set(&GenerationalIndex::new(6, 0), 1);
    GameState::sync_registry(state.entities(), &mut arr);
    assert_eq!(arr.len(), 7);
}

#[test]
fn component_attached_to_first_of_three() {
    let mut state = GameState::create_initial_state();
    state.register_map(EntityMap::<Position>::new());
    let e0 = GameState::create_entity(&mut state).build();
    let e1 = GameState::create_entity(&mut state).build();
    let e2 = GameState::create_entity(&mut state).build();
    assert_eq!(e0, GenerationalIndex::new(0, 0));
    assert_eq!(e1, GenerationalIndex::new(1, 0));
    assert_eq!(e2, GenerationalIndex::new(2, 0));
    assert!(state.add_component_to(Position { x: 1 }, &e0));
    assert_eq!(state.get::<Position>(&e0), Some(&Position { x: 1 }));
    assert_eq!(state.get::<Position>(&e1), None);
    assert_eq!(state.get_map::<Position>().unwrap().len(), 3);
}

#[test]
fn stale_handle_after_slot_reuse() {
    let mut alloc = GenerationalIndexAllocator::new();
    let mut arr: GenerationalIndexArray<Position> = GenerationalIndexArray::new();
    let a = alloc.allocate();
    assert_eq!(a, GenerationalIndex::new(0, 0));
    assert!(alloc.deallocate(&a));
    let b = alloc.allocate();
    assert_eq!(b, GenerationalIndex::new(0, 1));
    arr.set(&b, Position { x: 5 });
    assert_eq!(arr.get(&a), None);
    assert_eq!(arr.get(&b), Some(&Position { x: 5 }));
}

#[test]
fn builder_attaches_three_types() {
    let mut state = GameState::create_initial_state();
    state.register_map(EntityMap::<Position>::new());
    state.register_map(EntityMap::<Color>::new());
    state.register_map(EntityMap::<Velocity>::new());
    state.register_map(EntityMap::<Health>::new());
    let _first = GameState::create_entity(&mut state).with(Health { points: 3 }).build();
    let e = GameState::create_entity(&mut state)
        .with(Position { x: 2 })
        .with(Color { rgb: (1, 2, 3) })
        .with(Velocity { dx: -1 })
        .build();
    assert_eq!(e, GenerationalIndex::new(1, 0));
    assert_eq!(state.get::<Position>(&e), Some(&Position { x: 2 }));
    assert_eq!(state.get::<Color>(&e), Some(&Color { rgb: (1, 2, 3) }));
    assert_eq!(state.get::<Velocity>(&e), Some(&Velocity { dx: -1 }));
    assert_eq!(state.get::<Health>(&e), None);
}

#[test]
fn unregistered_type_is_skipped() {
    let mut state = GameState::create_initial_state();
    let e = GameState::create_entity(&mut state).with(Position { x: 1 }).build();
    assert!(!state.register_component(Position { x: 1 }, &e));
    assert!(!state.remove_component::<Position>(&e));
    assert!(state.get_map::<Position>().is_none());
    assert_eq!(state.get::<Position>(&e), None);
}

#[test]
fn remove_component_clears_slot() {
    let mut state = GameState::create_initial_state();
    state.register_map(EntityMap::<Position>::new());
    let e = GameState::create_entity(&mut state).with(Position { x: 4 }).build();
    assert!(state.remove_component::<Position>(&e));
    assert_eq!(state.get::<Position>(&e), None);
}

#[test]
fn register_map_replaces_previous_array() {
    let mut state = GameState::create_initial_state();
    let e = GameState::create_entity(&mut state).build();
    let mut filled = EntityMap::<Position>::new();
    filled.set(&e, Position { x: 9 });
    state.register_map(filled);
    assert_eq!(state.get::<Position>(&e), Some(&Position { x: 9 }));
    state.register_map(EntityMap::<Position>::new());
    assert_eq!(state.get::<Position>(&e), None);
}

#[test]
fn get_mut_through_state() {
    let mut state = GameState::create_initial_state();
    state.register_map(EntityMap::<Position>::new());
    let e = GameState::create_entity(&mut state).with(Position { x: 1 }).build();
    if let Some(p) = state.get_mut::<Position>(&e) {
        p.x = 10;
    }
    assert_eq!(state.get::<Position>(&e), Some(&Position { x: 10 }));
    if let Some(m) = state.get_map_mut::<Position>() {
        m.set(&e, Position { x: 11 });
    }
    assert_eq!(state.get::<Position>(&e), Some(&Position { x: 11 }));
}

#[test]
fn entity_list_tracks_latest_handles() {
    let mut state = GameState::create_initial_state();
    let e0 = GameState::create_entity(&mut state).build();
    let e1 = GameState::create_entity(&mut state).build();
    assert_eq!(state.entities(), &vec![e0, e1]);
    assert!(state.is_live(&e1));
}

#[test]
fn destroyed_entity_reads_nothing_after_reuse() {
    let mut state = GameState::create_initial_state();
    state.register_map(EntityMap::<Position>::new());
    let a = GameState::create_entity(&mut state).with(Position { x: 1 }).build();
    assert_eq!(a, GenerationalIndex::new(0, 0));
    assert!(state.destroy_entity(&a));
    assert!(!state.is_live(&a));
    assert!(!state.destroy_entity(&a));
    let b = GameState::create_entity(&mut state).with(Position { x: 2 }).build();
    assert_eq!(b, GenerationalIndex::new(0, 1));
    assert_eq!(state.get::<Position>(&a), None);
    assert_eq!(state.get::<Position>(&b), Some(&Position { x: 2 }));
    assert_eq!(state.entities(), &vec![b]);
}

#[test]
fn forged_handle_cannot_free_a_slot_twice() {
    let mut a = GenerationalIndexAllocator::new();
    let h = a.allocate();
    assert!(a.deallocate(&h));
    let forged = GenerationalIndex::new(0, 1);
    assert!(!a.is_live(&forged));
    assert!(!a.deallocate(&forged));
    assert_eq!(a.allocate(), GenerationalIndex::new(0, 1));
    assert_eq!(a.allocate(), GenerationalIndex::new(1, 0));
}

#[test]
fn stale_handle_with_largest_generation_is_refused() {
    let mut a = GenerationalIndexAllocator::new();
    let _h = a.allocate();
    assert!(!a.deallocate(&GenerationalIndex::new(0, u64::MAX)));
}

#[test]
fn helpers_on_looked_up_arrays() {
    let mut state = GameState::create_initial_state();
    let e0 = GameState::create_entity(&mut state).build();
    let e1 = GameState::create_entity(&mut state).build();
    let mut m: EntityMap<u32> = GenerationalIndexArray::new();
    assert!(GameState::attach_in(state.entities(), Some(&mut m), 5, &e0));
    assert_eq!(m.len(), 2);
    assert!(!GameState::attach_in::<u32>(state.entities(), None, 5, &e0));
    assert_eq!(GameState::component_in(Some(&m), &e0), Some(&5));
    assert_eq!(GameState::component_in(Some(&m), &e1), None);
    assert_eq!(GameState::component_in::<u32>(None, &e0), None);
    if let Some(v) = GameState::component_in_mut(Some(&mut m), &e0) {
        *v = 6;
    }
    assert_eq!(m.get(&e0), Some(&6));
    assert!(GameState::detach_in(Some(&mut m), &e0));
    assert_eq!(m.get(&e0), None);
    assert!(!GameState::detach_in::<u32>(None, &e0));
}

#[test]
fn allocate_entity_records_handle() {
    let mut state = GameState::create_initial_state();
    let e0 = state.allocate_entity();
    let e1 = state.allocate_entity();
    assert_eq!(e0, GenerationalIndex::new(0, 0));
    assert_eq!(e1, GenerationalIndex::new(1, 0));
    assert_eq!(state.entities(), &vec![e0, e1]);
}
