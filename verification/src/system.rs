//! The uniform shape the scheduler drives: every system, whatever callable
//! and parameters it wraps, exposes its metadata, accepts newly discovered
//! archetypes, runs against an access token, flushes buffered effects, and
//! submits to the periodic change-tick check.

use vstd::prelude::*;

use crate::access::Access;
use crate::access::AccessView;
use crate::cell::SemiSafeCell;
use crate::meta::MAX_CHANGE_AGE;
use crate::meta::SystemMeta;
use crate::meta::SystemMetaView;
use crate::meta::clamped_last_tick;
use crate::meta::latch_ok;
use crate::meta::tick_delta;
use crate::param::apply_writes;
use crate::world::Archetype;
use crate::world::World;
use crate::world::WorldView;
use crate::world::tick_after;

verus! {

/// A system the scheduler can treat uniformly. The lifecycle: constructed
/// uninitialized, [`System::initialize`] binds it to a world, then runs and
/// idle periods alternate until the owner discards it; every operation but
/// initialization demands an initialized system.
///
/// The scheduler reads the merged access descriptors to build its run
/// graph; they are only trustworthy once every archetype created so far has
/// been presented through [`System::new_archetype`], and the conflict
/// discipline on concurrently active tokens is the scheduler's own promise,
/// nothing this trait can check.
pub trait System: Sized {
    /// The input to the system.
    type In;

    /// The output of the system.
    type Out;

    /// True once the system has been bound to a world.
    spec fn initialized(&self) -> bool;

    /// The system's metadata, as a spec-level value.
    spec fn sys_meta(&self) -> SystemMeta;

    /// The component (field) identifiers the system's parameters touch;
    /// fixed by the system's type and registered at initialization.
    spec fn component_claims() -> Set<u64>;

    /// The component identifiers the system's parameters write.
    spec fn component_write_claims() -> Set<u64>;

    /// The storage units the system's parameters touch in the given
    /// archetype.
    spec fn archetype_claims(&self, archetype: Seq<(u64, u64)>) -> Set<u64>;

    /// The storage units the system's parameters write in the given
    /// archetype.
    spec fn archetype_write_claims(&self, archetype: Seq<(u64, u64)>) -> Set<u64>;

    /// The archetypes presented to the system so far, in presentation
    /// order.
    spec fn observed_archetypes(&self) -> Seq<Seq<(u64, u64)>>;

    /// The slot writes the system's parameters have buffered and not yet
    /// flushed, oldest first: what the next [`System::apply_buffers`] will
    /// perform.
    spec fn pending_effects(&self) -> Seq<(u64, u64)>;

    /// Write claims are claims, at the component level: what the system
    /// writes it also touches, so its merged descriptor stays well formed.
    proof fn component_claims_wf()
        ensures
            Self::component_write_claims().subset_of(Self::component_claims()),
    ;

    /// The same discipline per archetype.
    proof fn archetype_write_claims_subset(&self, archetype: Seq<(u64, u64)>)
        ensures
            self.archetype_write_claims(archetype).subset_of(self.archetype_claims(archetype)),
    ;

    /// The output of one run, as a function of the system as it stands, the
    /// input, the world before the run, and the captured change tick: what
    /// the wrapped callable produces for that invocation.
    spec fn run_output_spec(&self, input: Self::In, world: WorldView, change_tick: u32) -> Self::Out;

    /// The world's slot store after one run: the effect of that same
    /// invocation of the wrapped callable.
    spec fn run_slots_spec(&self, input: Self::In, world: WorldView, change_tick: u32) -> Seq<u64>;

    /// Returns the system's name.
    fn name(&self) -> (name: String)
        ensures
            name@ == self.sys_meta()@.name,
    ;

    /// Accounts for one newly discovered archetype: the merged
    /// archetype-component descriptor grows by exactly the system's claims
    /// on that archetype, the archetype is recorded as observed, and
    /// nothing else of the metadata moves. This is the fine-grained
    /// registration path for schedulers that stream layouts in one at a
    /// time instead of batch-refreshing.
    fn new_archetype(&mut self, archetype: &Archetype)
        requires
            old(self).initialized(),
        ensures
            final(self).initialized(),
            final(self).sys_meta()@ == (SystemMetaView {
                archetype_component_access: AccessView {
                    reads_and_writes: old(
                        self,
                    ).sys_meta()@.archetype_component_access.reads_and_writes.union(
                        old(self).archetype_claims(archetype@),
                    ),
                    writes: old(self).sys_meta()@.archetype_component_access.writes.union(
                        old(self).archetype_write_claims(archetype@),
                    ),
                },
                ..old(self).sys_meta()@
            }),
            final(self).observed_archetypes() == old(self).observed_archetypes().push(
                archetype@,
            ),
            final(self).pending_effects() == old(self).pending_effects(),
            forall|a: Seq<(u64, u64)>| #[trigger]
                final(self).archetype_claims(a) == old(self).archetype_claims(a),
            forall|a: Seq<(u64, u64)>| #[trigger]
                final(self).archetype_write_claims(a) == old(self).archetype_write_claims(a),
    ;

    /// The system's merged component claims.
    fn component_access(&self) -> (access: &Access)
        ensures
            access@ == self.sys_meta()@.component_access,
    ;

    /// The system's merged archetype-component claims, as grown so far.
    fn archetype_component_access(&self) -> (access: &Access)
        ensures
            access@ == self.sys_meta()@.archetype_component_access,
    ;

    /// True if the system may run on any worker thread.
    fn is_send(&self) -> (send: bool)
        ensures
            send == self.sys_meta()@.is_send,
    ;

    /// True if the system demands exclusive world access.
    fn is_exclusive(&self) -> (exclusive: bool)
        ensures
            exclusive == self.sys_meta()@.is_exclusive,
    ;

    /// Runs the system against a token whose aliasing the scheduler has
    /// already ruled out. Advances the change counter once, captures the
    /// new tick as the last-run tick, and confines every slot write to the
    /// system's registered write claims.
    fn run_unchecked(&mut self, input: Self::In, world: &mut World, cell: &SemiSafeCell) -> (output:
        Self::Out)
        requires
            old(self).initialized(),
            cell.is_mut(),
            cell.world_id() == old(world)@.id,
        ensures
            final(self).initialized(),
            final(world)@.id == old(world)@.id,
            final(world)@.archetypes == old(world)@.archetypes,
            final(world)@.change_tick == tick_after(old(world)@.change_tick),
            final(world)@.slots.len() == old(world)@.slots.len(),
            forall|k: int| #![trigger final(world)@.slots[k]]
                0 <= k < old(world)@.slots.len() && !old(
                    self,
                ).sys_meta()@.component_access.writes.contains(k as u64) ==> final(world)@.slots[k]
                    == old(world)@.slots[k],
            output == old(self).run_output_spec(input, old(world)@, final(world)@.change_tick),
            final(world)@.slots == old(self).run_slots_spec(
                input,
                old(world)@,
                final(world)@.change_tick,
            ),
            final(self).sys_meta()@ == (SystemMetaView {
                last_change_tick: final(world)@.change_tick,
                ..old(self).sys_meta()@
            }),
            final(self).observed_archetypes() == old(self).observed_archetypes(),
            forall|a: Seq<(u64, u64)>| #[trigger]
                final(self).archetype_claims(a) == old(self).archetype_claims(a),
            forall|a: Seq<(u64, u64)>| #[trigger]
                final(self).archetype_write_claims(a) == old(self).archetype_write_claims(a),
    ;

    /// Runs the system directly from an exclusive borrow, which by
    /// definition cannot alias: the safe convenience wrapper around
    /// [`System::run_unchecked`]: one run, against a token built from the
    /// borrow, with the same output and the same effect.
    fn run(&mut self, input: Self::In, world: &mut World) -> (output: Self::Out)
        requires
            old(self).initialized(),
        ensures
            final(self).initialized(),
            final(world)@.id == old(world)@.id,
            final(world)@.archetypes == old(world)@.archetypes,
            final(world)@.change_tick == tick_after(old(world)@.change_tick),
            final(world)@.slots.len() == old(world)@.slots.len(),
            forall|k: int| #![trigger final(world)@.slots[k]]
                0 <= k < old(world)@.slots.len() && !old(
                    self,
                ).sys_meta()@.component_access.writes.contains(k as u64) ==> final(world)@.slots[k]
                    == old(world)@.slots[k],
            output == old(self).run_output_spec(input, old(world)@, final(world)@.change_tick),
            final(world)@.slots == old(self).run_slots_spec(
                input,
                old(world)@,
                final(world)@.change_tick,
            ),
            final(self).sys_meta()@ == (SystemMetaView {
                last_change_tick: final(world)@.change_tick,
                ..old(self).sys_meta()@
            }),
            final(self).observed_archetypes() == old(self).observed_archetypes(),
            forall|a: Seq<(u64, u64)>| #[trigger]
                final(self).archetype_claims(a) == old(self).archetype_claims(a),
            forall|a: Seq<(u64, u64)>| #[trigger]
                final(self).archetype_write_claims(a) == old(self).archetype_write_claims(a),
    {
        let cell = SemiSafeCell::from_mut(world);
        self.run_unchecked(input, world, &cell)
    }

    /// Flushes exactly the deferred effects into the world, oldest first
    /// and within the system's registered write claims, leaving nothing
    /// buffered; the scheduler calls this before any later system that
    /// depends on those effects' visibility.
    fn apply_buffers(&mut self, world: &mut World)
        requires
            old(self).initialized(),
        ensures
            final(self).initialized(),
            final(self).sys_meta() == old(self).sys_meta(),
            final(world)@.slots == apply_writes(old(world)@.slots, old(self).pending_effects()),
            final(self).pending_effects() == Seq::<(u64, u64)>::empty(),
            final(self).observed_archetypes() == old(self).observed_archetypes(),
            forall|a: Seq<(u64, u64)>| #[trigger]
                final(self).archetype_claims(a) == old(self).archetype_claims(a),
            forall|a: Seq<(u64, u64)>| #[trigger]
                final(self).archetype_write_claims(a) == old(self).archetype_write_claims(a),
            final(world)@.id == old(world)@.id,
            final(world)@.archetypes == old(world)@.archetypes,
            final(world)@.change_tick == old(world)@.change_tick,
            final(world)@.slots.len() == old(world)@.slots.len(),
            forall|k: int| #![trigger final(world)@.slots[k]]
                0 <= k < old(world)@.slots.len() && !old(
                    self,
                ).sys_meta()@.component_access.writes.contains(k as u64) ==> final(world)@.slots[k]
                    == old(world)@.slots[k],
    ;

    /// Binds the system to `world`: builds the parameter state, registers
    /// exactly the parameters' component claims into the merged descriptor,
    /// and leaves the rest of the metadata standing (no latch released, the
    /// name and the last-run tick untouched). Must happen before any other
    /// operation; afterwards no archetype counts as observed yet.
    fn initialize(&mut self, world: &mut World)
        ensures
            final(self).initialized(),
            final(self).sys_meta()@.name == old(self).sys_meta()@.name,
            final(self).sys_meta()@.last_change_tick == old(self).sys_meta()@.last_change_tick,
            final(self).sys_meta()@.archetype_component_access == old(
                self,
            ).sys_meta()@.archetype_component_access,
            latch_ok(old(self).sys_meta()@, final(self).sys_meta()@),
            final(self).sys_meta()@.component_access == (AccessView {
                reads_and_writes: old(self).sys_meta()@.component_access.reads_and_writes.union(
                    Self::component_claims(),
                ),
                writes: old(self).sys_meta()@.component_access.writes.union(
                    Self::component_write_claims(),
                ),
            }),
            final(self).observed_archetypes() == Seq::<Seq<(u64, u64)>>::empty(),
            final(self).pending_effects() == Seq::<(u64, u64)>::empty(),
            final(world)@.id == old(world)@.id,
            final(world)@.change_tick == old(world)@.change_tick,
            final(world)@.archetypes == old(world)@.archetypes,
            old(world)@.slots.is_prefix_of(final(world)@.slots),
    ;

    /// The periodic change-tick check against this system's last-run tick;
    /// true reports that a diagnostic warning naming the system is owed.
    fn check_change_tick(&mut self, change_tick: u32) -> (warned: bool)
        ensures
            warned == (tick_delta(old(self).sys_meta()@.last_change_tick, change_tick)
                > MAX_CHANGE_AGE),
            final(self).sys_meta()@ == (SystemMetaView {
                last_change_tick: clamped_last_tick(
                    old(self).sys_meta()@.last_change_tick,
                    change_tick,
                ),
                ..old(self).sys_meta()@
            }),
            final(self).initialized() == old(self).initialized(),
            latch_ok(old(self).sys_meta()@, final(self).sys_meta()@),
            final(self).observed_archetypes() == old(self).observed_archetypes(),
            final(self).pending_effects() == old(self).pending_effects(),
            forall|a: Seq<(u64, u64)>| #[trigger]
                final(self).archetype_claims(a) == old(self).archetype_claims(a),
            forall|a: Seq<(u64, u64)>| #[trigger]
                final(self).archetype_write_claims(a) == old(self).archetype_write_claims(a),
    ;
}

/// Why the scheduler's conflict analysis is a safety argument: a run whose
/// slot writes are confined to one descriptor's write claims — which is
/// what [`System::run_unchecked`] promises of every system — leaves every
/// slot a compatible descriptor touches exactly as it was. Two systems
/// whose descriptors pass the conflict test therefore cannot disturb each
/// other's data, in either order.
pub proof fn lemma_compatible_runs_do_not_interfere(
    a: AccessView,
    b: AccessView,
    before: Seq<u64>,
    after: Seq<u64>,
)
    requires
        a.compatible(b),
        after.len() == before.len(),
        forall|k: int| #![trigger after[k]]
            0 <= k < before.len() && !a.writes.contains(k as u64) ==> after[k] == before[k],
    ensures
        forall|k: int| #![trigger b.reads_and_writes.contains(k as u64)]
            0 <= k < before.len() && b.reads_and_writes.contains(k as u64) ==> after[k]
                == before[k],
{
    assert forall|k: int|
        0 <= k < before.len() && b.reads_and_writes.contains(k as u64) implies after[k]
        == before[k] by {
        assert(!a.writes.contains(k as u64));
    }
}

} // verus!
