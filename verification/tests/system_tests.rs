use system_core::AlreadyWasSystem;
use system_core::Archetype;
use system_core::EmptyParam;
use system_core::FunctionSystem;
use system_core::In;
use system_core::IncrementSlot;
use system_core::IntoSystem;
use system_core::IsFunctionSystem;
use system_core::ReadSlot;
use system_core::ReadSlotValue;
use system_core::SemiSafeCell;
use system_core::SquareInput;
use system_core::System;
use system_core::World;
use system_core::WriteSlot;

fn counter_system() -> FunctionSystem<WriteSlot<0>, IncrementSlot<0>> {
    <IncrementSlot<0> as IntoSystem<(IsFunctionSystem, WriteSlot<0>)>>::into_system(
        IncrementSlot,
    )
}

#[test]
fn run_twice_advances_counter_and_change_tick() {
    let mut world = World::new(1);
    world.add_slot(0);
    let mut system = counter_system();
    system.initialize(&mut world);
    assert!(system.component_access().has_write(0));

    let tick_before = world.change_tick();
    let first = system.run((), &mut world);
    let tick_after_first = world.change_tick();
    assert_eq!(first, 1);
    assert_eq!(world.read_slot(0), 1);
    assert!(tick_after_first > tick_before);

    let second = system.run((), &mut world);
    let tick_after_second = world.change_tick();
    assert_eq!(second, 2);
    assert_eq!(world.read_slot(0), 2);
    assert!(tick_after_second > tick_after_first);
    assert_eq!(system.check_change_tick(tick_after_second), false);
}

#[test]
fn run_records_last_change_tick() {
    let mut world = World::new(1);
    world.add_slot(0);
    let mut system = counter_system();
    system.initialize(&mut world);
    system.run((), &mut world);
    // The captured tick equals the world's tick right after the run, so the
    // periodic check measures no age at all.
    assert!(!system.check_change_tick(world.change_tick()));
}

#[test]
fn run_unchecked_takes_an_exclusive_token() {
    let mut world = World::new(1);
    world.add_slot(0);
    let mut system = counter_system();
    system.initialize(&mut world);
    let cell = SemiSafeCell::from_mut(&mut world);
    system.run_unchecked((), &mut world, &cell);
    assert_eq!(world.read_slot(0), 1);
}

#[test]
fn input_reaches_the_callable() {
    let mut world = World::new(1);
    let mut system =
        <SquareInput as IntoSystem<(IsFunctionSystem, EmptyParam)>>::into_system(SquareInput);
    system.initialize(&mut world);
    assert_eq!(system.run(In(12), &mut world), 144);
    assert!(!system.component_access().has_read(0));
}

#[test]
fn square_wraps_at_the_64_bit_boundary() {
    let mut world = World::new(1);
    let mut system =
        <SquareInput as IntoSystem<(IsFunctionSystem, EmptyParam)>>::into_system(SquareInput);
    system.initialize(&mut world);
    // (2^32)^2 == 2^64, which wraps to zero.
    assert_eq!(system.run(In(1u64 << 32), &mut world), 0);
}

#[test]
fn counter_wraps_at_the_64_bit_boundary() {
    let mut world = World::new(1);
    world.add_slot(u64::MAX);
    let mut system = counter_system();
    system.initialize(&mut world);
    assert_eq!(system.run((), &mut world), 0);
    assert_eq!(world.read_slot(0), 0);
}

#[test]
fn a_reading_callable_fetches_through_its_state() {
    let mut world = World::new(1);
    world.add_slot(0);
    world.add_slot(41);
    let mut system = <ReadSlotValue<1> as IntoSystem<
        (IsFunctionSystem, ReadSlot<1>),
    >>::into_system(ReadSlotValue);
    system.initialize(&mut world);
    assert_eq!(system.run((), &mut world), 41);
    assert!(system.component_access().has_read(1));
    assert!(!system.component_access().has_write(1));
}

#[test]
fn conflicting_systems_are_reported_as_conflicting() {
    let mut world = World::new(1);
    world.add_slot(0);
    world.add_slot(0);
    let mut writer_a = counter_system();
    let mut writer_b = counter_system();
    let mut reader = <ReadSlotValue<1> as IntoSystem<
        (IsFunctionSystem, ReadSlot<1>),
    >>::into_system(ReadSlotValue);
    writer_a.initialize(&mut world);
    writer_b.initialize(&mut world);
    reader.initialize(&mut world);

    // Two writers of the same identifier always conflict, in either order.
    assert!(writer_a.component_access().conflicts(writer_b.component_access()));
    assert!(writer_b.component_access().conflicts(writer_a.component_access()));
    // Disjoint identifiers never conflict.
    assert!(!writer_a.component_access().conflicts(reader.component_access()));
    assert!(!reader.component_access().conflicts(writer_a.component_access()));
}

#[test]
fn new_archetype_grows_the_archetype_descriptor() {
    let mut world = World::new(1);
    world.add_slot(0);
    let mut system = counter_system();
    system.initialize(&mut world);
    let archetype = Archetype::new(vec![(0, 55)]);
    system.new_archetype(&archetype);
    assert!(system.archetype_component_access().has_write(55));
}

#[test]
fn apply_buffers_leaves_slot_kinds_alone() {
    let mut world = World::new(1);
    world.add_slot(3);
    let mut system = counter_system();
    system.initialize(&mut world);
    system.apply_buffers(&mut world);
    assert_eq!(world.read_slot(0), 3);
}

#[test]
fn a_system_converts_to_itself() {
    let mut world = World::new(1);
    world.add_slot(0);
    let system = counter_system();
    let mut same = <FunctionSystem<WriteSlot<0>, IncrementSlot<0>> as IntoSystem<
        AlreadyWasSystem,
    >>::into_system(system);
    same.initialize(&mut world);
    same.run((), &mut world);
    assert_eq!(world.read_slot(0), 1);
}

#[test]
fn converted_systems_start_with_defaults() {
    let system = counter_system();
    assert_eq!(system.name(), "");
    assert!(system.is_send());
    assert!(!system.is_exclusive());
    assert!(!system.component_access().has_write(0));
}
