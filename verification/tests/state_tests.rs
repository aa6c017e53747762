use system_core::Archetype;
use system_core::ParamPair;
use system_core::ReadSlot;
use system_core::SemiSafeCell;
use system_core::SystemState;
use system_core::World;
use system_core::WriteSlot;

#[test]
fn shared_token_grants_only_the_shared_view() {
    let world = World::new(11);
    let cell = SemiSafeCell::from_ref(&world);
    assert_eq!(cell.as_ref(), 11);
    // The exclusive view is refused every time, deterministically.
    for _ in 0..10 {
        assert!(cell.as_mut().is_none());
    }
}

#[test]
fn exclusive_token_grants_both_views() {
    let mut world = World::new(12);
    let cell = SemiSafeCell::from_mut(&mut world);
    assert_eq!(cell.as_ref(), 12);
    assert_eq!(cell.as_mut(), Some(12));
}

#[test]
fn tokens_are_copied_freely() {
    let world = World::new(13);
    let cell = SemiSafeCell::from_ref(&world);
    let copy = cell;
    assert_eq!(cell.as_ref(), copy.as_ref());
    assert!(copy.as_mut().is_none());
}

#[test]
fn state_matches_only_its_own_world() {
    let mut world = World::new(1);
    let other = World::new(2);
    let state = SystemState::<ReadSlot<0>>::new(&mut world);
    assert!(state.matches_world(&world));
    assert!(!state.matches_world(&other));
}

#[test]
fn validated_fetch_reads_the_slot_and_advances_the_tick() {
    let mut world = World::new(1);
    let slot = world.add_slot(10);
    assert_eq!(slot, 0);
    let mut state = SystemState::<ReadSlot<0>>::new(&mut world);
    assert_eq!(world.change_tick(), 0);
    let value = state.get(&mut world);
    assert_eq!(value, 10);
    assert_eq!(world.change_tick(), 1);
    assert_eq!(state.meta().last_change_tick(), 1);
    let again = state.get(&mut world);
    assert_eq!(again, 10);
    assert_eq!(world.change_tick(), 2);
    assert_eq!(state.meta().last_change_tick(), 2);
}

#[test]
fn exclusive_fetch_works_for_writing_kinds() {
    let mut world = World::new(1);
    world.add_slot(21);
    let mut state = SystemState::<WriteSlot<0>>::new(&mut world);
    assert!(state.meta().component_access().has_write(0));
    let value = state.get_mut(&mut world);
    assert_eq!(value, 21);
    assert_eq!(world.change_tick(), 1);
}

#[test]
fn unchecked_fetch_skips_the_refresh() {
    let mut world = World::new(1);
    world.add_slot(33);
    let mut state = SystemState::<ReadSlot<0>>::new(&mut world);
    let cell = SemiSafeCell::from_ref(&world);
    let value = state.get_unchecked(&mut world, &cell);
    assert_eq!(value, 33);
    assert_eq!(world.change_tick(), 1);
}

#[test]
fn pair_fetch_composes_two_kinds() {
    let mut world = World::new(1);
    world.add_slot(5);
    world.add_slot(6);
    let mut state = SystemState::<ParamPair<ReadSlot<0>, ReadSlot<1>>>::new(&mut world);
    let (a, b) = state.get(&mut world);
    assert_eq!(a, 5);
    assert_eq!(b, 6);
    assert!(state.meta().component_access().has_read(0));
    assert!(state.meta().component_access().has_read(1));
    assert!(!state.meta().component_access().has_write(0));
}

#[test]
fn pair_with_a_writer_takes_the_exclusive_path() {
    let mut world = World::new(1);
    world.add_slot(7);
    world.add_slot(8);
    let mut state = SystemState::<ParamPair<ReadSlot<0>, WriteSlot<1>>>::new(&mut world);
    let (a, b) = state.get_mut(&mut world);
    assert_eq!(a, 7);
    assert_eq!(b, 8);
    // The composition registered both claims.
    assert!(state.meta().component_access().has_read(0));
    assert!(!state.meta().component_access().has_write(0));
    assert!(state.meta().component_access().has_read(1));
    assert!(state.meta().component_access().has_write(1));
}

#[test]
fn refresh_accounts_for_every_new_archetype_once() {
    let mut world = World::new(1);
    world.add_slot(0);
    let mut state = SystemState::<ReadSlot<0>>::new(&mut world);
    assert!(!state.meta().archetype_component_access().has_read(70));

    // Two archetypes carry component 0, in storage units 70 and 71; a third
    // does not carry it at all.
    world.add_archetype(Archetype::new(vec![(0, 70)]));
    world.add_archetype(Archetype::new(vec![(9, 99)]));
    state.validate_world_and_update_archetypes(&world);
    assert!(state.meta().archetype_component_access().has_read(70));
    assert!(!state.meta().archetype_component_access().has_read(99));

    // A refresh with nothing new changes nothing.
    state.validate_world_and_update_archetypes(&world);
    assert!(state.meta().archetype_component_access().has_read(70));

    // A later discovery is picked up by the next refresh.
    world.add_archetype(Archetype::new(vec![(0, 71), (8, 88)]));
    assert!(!state.meta().archetype_component_access().has_read(71));
    state.validate_world_and_update_archetypes(&world);
    assert!(state.meta().archetype_component_access().has_read(71));
    assert!(!state.meta().archetype_component_access().has_read(88));
}

#[test]
fn validated_fetch_also_refreshes() {
    let mut world = World::new(1);
    world.add_slot(0);
    let mut state = SystemState::<WriteSlot<0>>::new(&mut world);
    world.add_archetype(Archetype::new(vec![(0, 40)]));
    let _ = state.get_mut(&mut world);
    assert!(state.meta().archetype_component_access().has_write(40));
    assert!(state.meta().archetype_component_access().has_read(40));
}

#[test]
fn apply_flushes_nothing_for_slot_kinds() {
    let mut world = World::new(1);
    world.add_slot(77);
    let mut state = SystemState::<WriteSlot<0>>::new(&mut world);
    state.apply(&mut world);
    assert_eq!(world.read_slot(0), 77);
    assert_eq!(world.change_tick(), 0);
}

#[test]
fn world_slots_read_and_write() {
    let mut world = World::new(4);
    assert_eq!(world.slot_count(), 0);
    let s = world.add_slot(9);
    assert_eq!(world.read_slot(s), 9);
    world.write_slot(s, 12);
    assert_eq!(world.read_slot(s), 12);
    // A slot the world does not have reads as zero and ignores writes.
    assert_eq!(world.read_slot(100), 0);
    world.write_slot(100, 5);
    assert_eq!(world.read_slot(100), 0);
    assert_eq!(world.slot_count(), 1);
}
