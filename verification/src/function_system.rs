//! The function adapter: wraps an arbitrary callable together with its
//! parameter state and metadata into the one [`System`] shape the scheduler
//! drives, plus the conversion trait that turns values into systems.

use vstd::prelude::*;
use vstd::pervasive::arbitrary;
use vstd::pervasive::unreached;

use crate::access::Access;
use crate::access::AccessView;
use crate::cell::SemiSafeCell;
use crate::meta::SystemMeta;
use crate::meta::SystemMetaView;
use crate::meta::latch_ok;
use crate::param::EmptyParam;
use crate::param::ReadSlot;
use crate::param::SystemParamState;
use crate::param::WriteSlot;
use crate::system::System;
use crate::world::Archetype;
use crate::world::World;
use crate::world::WorldView;

verus! {

/// Wrapper a hand-written callable may use for the parameter slot that
/// receives the caller-supplied input instead of being fetched from the
/// world. A callable declares at most one such slot, and it is always the
/// first; [`SystemParamFunction::In`] being a single associated type is what
/// enforces that.
pub struct In<T>(pub T);

/// Marker distinguishing adapters whose callable declares an input slot
/// from those whose input is `()`.
pub struct InputMarker;

/// A callable a [`FunctionSystem`] can drive: given the caller-supplied
/// input, its own parameter state, the owning system's metadata, world
/// access under an already-audited token, and the tick captured for this
/// invocation, it produces the system's output.
///
/// The contract mirrors the fetch discipline: the callable leaves the
/// world's identity, archetypes and change counter alone, confines its slot
/// writes to the parameter state's registered write claims, and leaves the
/// parameter state's claims as they were.
pub trait SystemParamFunction<P: SystemParamState>: Sized {
    /// The input to the callable.
    type In;

    /// The output of the callable.
    type Out;

    /// What one invocation returns, as a function of the callable, the
    /// input, the parameter state, the world as handed in, and the captured
    /// change tick.
    spec fn output_spec(&self, input: Self::In, state: P, world: WorldView, change_tick: u32) -> Self::Out;

    /// The world's slot store after that same invocation.
    spec fn slots_spec(&self, input: Self::In, state: P, world: WorldView, change_tick: u32) -> Seq<u64>;

    /// One invocation of the callable: it returns exactly
    /// [`SystemParamFunction::output_spec`] and leaves the slots exactly as
    /// [`SystemParamFunction::slots_spec`] says, confined to the parameter
    /// state's write claims.
    fn run(
        &mut self,
        input: Self::In,
        state: &mut P,
        meta: &SystemMeta,
        world: &mut World,
        cell: &SemiSafeCell,
        change_tick: u32,
    ) -> (output: Self::Out)
        requires
            cell.world_id() == old(world)@.id,
            cell.is_mut() || P::read_only(),
        ensures
            output == old(self).output_spec(input, *old(state), old(world)@, change_tick),
            final(world)@.slots == old(self).slots_spec(
                input,
                *old(state),
                old(world)@,
                change_tick,
            ),
            final(state).seen() == old(state).seen(),
            final(state).writes() == old(state).writes(),
            forall|a: Seq<(u64, u64)>| #[trigger]
                final(state).archetype_claims(a) == old(state).archetype_claims(a),
            forall|a: Seq<(u64, u64)>| #[trigger]
                final(state).archetype_write_claims(a) == old(state).archetype_write_claims(a),
            final(world)@.id == old(world)@.id,
            final(world)@.change_tick == old(world)@.change_tick,
            final(world)@.archetypes == old(world)@.archetypes,
            final(world)@.slots.len() == old(world)@.slots.len(),
            forall|k: int| #![trigger final(world)@.slots[k]]
                0 <= k < old(world)@.slots.len() && !old(state).writes().contains(k as u64)
                    ==> final(world)@.slots[k] == old(world)@.slots[k],
    ;
}

/// The simplest useful callable, and a verified reference implementation
/// of the invocation contract: each run replaces the counter held in its
/// slot with that counter plus one (wrapping), and returns the new value.
pub struct IncrementSlot<const SLOT: u64>;

/// The value [`IncrementSlot`] stores and returns: the slot's current value
/// plus one, wrapping.
pub open spec fn incremented_slot(world: WorldView, slot: u64) -> u64 {
    let current = if slot < world.slots.len() {
        world.slots[slot as int]
    } else {
        0
    };
    if current == u64::MAX {
        0
    } else {
        (current + 1) as u64
    }
}

impl<const SLOT: u64> SystemParamFunction<WriteSlot<SLOT>> for IncrementSlot<SLOT> {
    type In = ();

    type Out = u64;

    open spec fn output_spec(
        &self,
        input: (),
        state: WriteSlot<SLOT>,
        world: WorldView,
        change_tick: u32,
    ) -> u64 {
        incremented_slot(world, SLOT)
    }

    open spec fn slots_spec(
        &self,
        input: (),
        state: WriteSlot<SLOT>,
        world: WorldView,
        change_tick: u32,
    ) -> Seq<u64> {
        if SLOT < world.slots.len() {
            world.slots.update(SLOT as int, incremented_slot(world, SLOT))
        } else {
            world.slots
        }
    }

    fn run(
        &mut self,
        input: (),
        state: &mut WriteSlot<SLOT>,
        meta: &SystemMeta,
        world: &mut World,
        cell: &SemiSafeCell,
        change_tick: u32,
    ) -> (output: u64) {
        let current = world.read_slot(SLOT);
        let next = if current == u64::MAX {
            0
        } else {
            current + 1
        };
        world.write_slot(SLOT, next);
        next
    }
}

/// A callable demonstrating the input slot: it takes no data from the
/// world, receives the caller-supplied value through the [`In`] wrapper,
/// and returns its square, wrapping.
pub struct SquareInput;

/// The value [`SquareInput`] returns: the square, reduced mod 2^64.
pub open spec fn squared(value: u64) -> u64 {
    (((value as int) * (value as int)) % 0x1_0000_0000_0000_0000) as u64
}

impl SystemParamFunction<EmptyParam> for SquareInput {
    type In = In<u64>;

    type Out = u64;

    open spec fn output_spec(
        &self,
        input: In<u64>,
        state: EmptyParam,
        world: WorldView,
        change_tick: u32,
    ) -> u64 {
        squared(input.0)
    }

    open spec fn slots_spec(
        &self,
        input: In<u64>,
        state: EmptyParam,
        world: WorldView,
        change_tick: u32,
    ) -> Seq<u64> {
        world.slots
    }

    fn run(
        &mut self,
        input: In<u64>,
        state: &mut EmptyParam,
        meta: &SystemMeta,
        world: &mut World,
        cell: &SemiSafeCell,
        change_tick: u32,
    ) -> (output: u64) {
        let value = input.0;
        proof {
            assert((value as int) * (value as int) < 0x1_0000_0000_0000_0000_0000_0000_0000_0000)
                by (nonlinear_arith)
                requires
                    0 <= value < 0x1_0000_0000_0000_0000,
            ;
        }
        let wide: u128 = (value as u128) * (value as u128);
        let low: u128 = wide % 0x1_0000_0000_0000_0000u128;
        let output: u64 = low as u64;
        proof {
            assert(wide as int == (value as int) * (value as int));
            assert(output == squared(value));
        }
        output
    }
}

/// A callable that fetches its parameter and returns the fetched value:
/// the slot's content as of this invocation.
pub struct ReadSlotValue<const SLOT: u64>;

impl<const SLOT: u64> SystemParamFunction<ReadSlot<SLOT>> for ReadSlotValue<SLOT> {
    type In = ();

    type Out = u64;

    open spec fn output_spec(
        &self,
        input: (),
        state: ReadSlot<SLOT>,
        world: WorldView,
        change_tick: u32,
    ) -> u64 {
        state.item_spec(world, change_tick)
    }

    open spec fn slots_spec(
        &self,
        input: (),
        state: ReadSlot<SLOT>,
        world: WorldView,
        change_tick: u32,
    ) -> Seq<u64> {
        world.slots
    }

    fn run(
        &mut self,
        input: (),
        state: &mut ReadSlot<SLOT>,
        meta: &SystemMeta,
        world: &mut World,
        cell: &SemiSafeCell,
        change_tick: u32,
    ) -> (output: u64) {
        state.get_param(meta, world, cell, change_tick)
    }
}

/// The [`System`]-shaped wrapper around a callable: the callable itself,
/// its parameter state once initialized, and the system metadata.
pub struct FunctionSystem<P, F> where P: SystemParamState, F: SystemParamFunction<P> {
    func: F,
    param_state: Option<P>,
    system_meta: SystemMeta,
}

impl<P: SystemParamState, F: SystemParamFunction<P>> FunctionSystem<P, F> {
    /// The wrapped callable, as a spec-level value.
    pub closed spec fn callable(&self) -> F {
        self.func
    }

    /// The parameter state, as a spec-level value; `None` until
    /// initialization.
    pub closed spec fn param(&self) -> Option<P> {
        self.param_state
    }
}

impl<P: SystemParamState, F: SystemParamFunction<P>> System for FunctionSystem<P, F> {
    type In = F::In;

    type Out = F::Out;

    /// Initialized once the parameter state exists; its write claims then
    /// sit inside the metadata's component write claims, which is what
    /// keeps every run's writes inside the declared descriptor.
    open spec fn initialized(&self) -> bool {
        match self.param() {
            Some(state) => state.writes().subset_of(self.sys_meta()@.component_access.writes),
            None => false,
        }
    }

    closed spec fn sys_meta(&self) -> SystemMeta {
        self.system_meta
    }

    open spec fn component_claims() -> Set<u64> {
        P::component_claims()
    }

    open spec fn component_write_claims() -> Set<u64> {
        P::component_write_claims()
    }

    open spec fn archetype_claims(&self, archetype: Seq<(u64, u64)>) -> Set<u64> {
        match self.param() {
            Some(state) => state.archetype_claims(archetype),
            None => Set::empty(),
        }
    }

    open spec fn archetype_write_claims(&self, archetype: Seq<(u64, u64)>) -> Set<u64> {
        match self.param() {
            Some(state) => state.archetype_write_claims(archetype),
            None => Set::empty(),
        }
    }

    open spec fn observed_archetypes(&self) -> Seq<Seq<(u64, u64)>> {
        match self.param() {
            Some(state) => state.seen(),
            None => Seq::empty(),
        }
    }

    open spec fn pending_effects(&self) -> Seq<(u64, u64)> {
        match self.param() {
            Some(state) => state.pending_writes(),
            None => Seq::empty(),
        }
    }

    proof fn component_claims_wf() {
        P::component_claims_wf();
    }

    proof fn archetype_write_claims_subset(&self, archetype: Seq<(u64, u64)>) {
        match self.param() {
            Some(state) => state.archetype_write_claims_subset(archetype),
            None => {},
        }
    }

    /// A run hands the callable the world as it stands after the tick
    /// increment, together with the captured tick.
    open spec fn run_output_spec(&self, input: F::In, world: WorldView, change_tick: u32) -> F::Out {
        match self.param() {
            Some(state) => self.callable().output_spec(
                input,
                state,
                WorldView { change_tick: change_tick, ..world },
                change_tick,
            ),
            None => arbitrary(),
        }
    }

    open spec fn run_slots_spec(&self, input: F::In, world: WorldView, change_tick: u32) -> Seq<
        u64,
    > {
        match self.param() {
            Some(state) => self.callable().slots_spec(
                input,
                state,
                WorldView { change_tick: change_tick, ..world },
                change_tick,
            ),
            None => world.slots,
        }
    }

    fn name(&self) -> (name: String) {
        self.system_meta.name().clone()
    }

    fn new_archetype(&mut self, archetype: &Archetype) {
        match &mut self.param_state {
            Some(state) => state.new_archetype(archetype, &mut self.system_meta),
            None => unreached(),
        }
    }

    fn component_access(&self) -> (access: &Access) {
        self.system_meta.component_access()
    }

    fn archetype_component_access(&self) -> (access: &Access) {
        self.system_meta.archetype_component_access()
    }

    fn is_send(&self) -> (send: bool) {
        self.system_meta.is_send()
    }

    fn is_exclusive(&self) -> (exclusive: bool) {
        self.system_meta.is_exclusive()
    }

    fn run_unchecked(&mut self, input: Self::In, world: &mut World, cell: &SemiSafeCell) -> (output:
        Self::Out) {
        let change_tick = world.increment_change_tick();
        let output = match &mut self.param_state {
            Some(state) => self.func.run(
                input,
                state,
                &self.system_meta,
                world,
                cell,
                change_tick,
            ),
            None => unreached(),
        };
        self.system_meta.set_last_change_tick(change_tick);
        output
    }

    fn apply_buffers(&mut self, world: &mut World) {
        match &mut self.param_state {
            Some(state) => state.apply(world),
            None => unreached(),
        }
    }

    fn initialize(&mut self, world: &mut World) {
        self.param_state = Some(P::init(world, &mut self.system_meta));
    }

    fn check_change_tick(&mut self, change_tick: u32) -> (warned: bool) {
        self.system_meta.check_change_tick(change_tick)
    }
}

/// Marker for the conversion of a bare callable into a
/// [`FunctionSystem`].
pub struct IsFunctionSystem;

/// Marker for the conversion of something that already is a system.
pub struct AlreadyWasSystem;

/// Conversion into a [`System`]. Every system converts to itself, and every
/// callable over a parameter state converts to the [`FunctionSystem`]
/// wrapping it; the marker parameter keeps the two blanket conversions
/// apart.
pub trait IntoSystem<Marker>: Sized {
    /// The system this value converts into.
    type System;

    /// Turns this value into its corresponding system.
    fn into_system(this: Self) -> Self::System;
}

impl<S: System> IntoSystem<AlreadyWasSystem> for S {
    type System = S;

    fn into_system(this: S) -> (system: S)
        ensures
            system == this,
    {
        this
    }
}

impl<P: SystemParamState, F: SystemParamFunction<P>> IntoSystem<(
    IsFunctionSystem,
    P,
)> for F {
    type System = FunctionSystem<P, F>;

    fn into_system(this: F) -> (system: FunctionSystem<P, F>)
        ensures
            !system.initialized(),
            system.param() is None,
            system.callable() == this,
            system.sys_meta()@ == SystemMetaView::initial(Seq::<char>::empty()),
    {
        FunctionSystem { func: this, param_state: None, system_meta: SystemMeta::new(String::new()) }
    }
}

} // verus!
