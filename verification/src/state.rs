//! Cached invocation state: per-system metadata plus the persistent
//! parameter state, bound to the identity of the world it was built against
//! and carrying the generation watermark of the last archetype it observed.
//! The validated fetch paths refresh that watermark first, so the merged
//! access descriptor reflects every archetype created so far exactly once.

use vstd::prelude::*;

use crate::access::AccessView;
use crate::cell::SemiSafeCell;
use crate::meta::SystemMeta;
use crate::meta::SystemMetaView;
use crate::param::SystemParamState;
use crate::param::apply_writes;
use crate::world::ArchetypeGeneration;
use crate::world::World;
use crate::world::WorldView;
use crate::world::tick_after;

verus! {

/// The storage units a parameter state claims over a sequence of
/// archetypes: the union of its claims on each, empty over none.
pub open spec fn merged_claims<P: SystemParamState>(
    param: P,
    archetypes: Seq<Seq<(u64, u64)>>,
) -> Set<u64>
    decreases archetypes.len(),
{
    if archetypes.len() == 0 {
        Set::empty()
    } else {
        merged_claims(param, archetypes.drop_last()).union(
            param.archetype_claims(archetypes.last()),
        )
    }
}

/// The written storage units over a sequence of archetypes.
pub open spec fn merged_write_claims<P: SystemParamState>(
    param: P,
    archetypes: Seq<Seq<(u64, u64)>>,
) -> Set<u64>
    decreases archetypes.len(),
{
    if archetypes.len() == 0 {
        Set::empty()
    } else {
        merged_write_claims(param, archetypes.drop_last()).union(
            param.archetype_write_claims(archetypes.last()),
        )
    }
}

/// Appending one archetype grows the merged claims by exactly that
/// archetype's claims.
proof fn lemma_merged_claims_push<P: SystemParamState>(
    param: P,
    archetypes: Seq<Seq<(u64, u64)>>,
    archetype: Seq<(u64, u64)>,
)
    ensures
        merged_claims(param, archetypes.push(archetype)) == merged_claims(
            param,
            archetypes,
        ).union(param.archetype_claims(archetype)),
        merged_write_claims(param, archetypes.push(archetype)) == merged_write_claims(
            param,
            archetypes,
        ).union(param.archetype_write_claims(archetype)),
{
    assert(archetypes.push(archetype).drop_last() =~= archetypes);
    assert(archetypes.push(archetype).last() == archetype);
}

/// Two parameter states with identical claims merge identically.
proof fn lemma_merged_claims_stable<P: SystemParamState>(
    before: P,
    after: P,
    archetypes: Seq<Seq<(u64, u64)>>,
)
    requires
        forall|a: Seq<(u64, u64)>| #[trigger]
            after.archetype_claims(a) == before.archetype_claims(a),
        forall|a: Seq<(u64, u64)>| #[trigger]
            after.archetype_write_claims(a) == before.archetype_write_claims(a),
    ensures
        merged_claims(after, archetypes) == merged_claims(before, archetypes),
        merged_write_claims(after, archetypes) == merged_write_claims(before, archetypes),
    decreases archetypes.len(),
{
    if archetypes.len() > 0 {
        lemma_merged_claims_stable(before, after, archetypes.drop_last());
    }
}

/// Merged write claims never leave the merged claims: the merged descriptor
/// stays well formed.
proof fn lemma_merged_write_claims_subset<P: SystemParamState>(
    param: P,
    archetypes: Seq<Seq<(u64, u64)>>,
)
    ensures
        merged_write_claims(param, archetypes).subset_of(merged_claims(param, archetypes)),
    decreases archetypes.len(),
{
    if archetypes.len() > 0 {
        lemma_merged_write_claims_subset(param, archetypes.drop_last());
        param.archetype_write_claims_subset(archetypes.last());
    }
}

/// Persistent state for driving a system's declared parameters against one
/// specific world: the system metadata, one parameter state, the identity
/// of the world everything was built against, and the generation watermark
/// of the last archetype observed.
pub struct SystemState<P: SystemParamState> {
    meta: SystemMeta,
    param_state: P,
    world_id: u64,
    archetype_generation: ArchetypeGeneration,
}

impl<P: SystemParamState> SystemState<P> {
    /// The metadata, as a spec-level value.
    pub closed spec fn sys_meta(&self) -> SystemMeta {
        self.meta
    }

    /// The parameter state, as a spec-level value.
    pub closed spec fn param(&self) -> P {
        self.param_state
    }

    /// The identity of the world this state was built against.
    pub closed spec fn spec_world_id(&self) -> u64 {
        self.world_id
    }

    /// How many archetypes of the world this state has observed.
    pub closed spec fn generation(&self) -> int {
        self.archetype_generation.spec_value()
    }

    /// The binding between a cached state and its world: the identities
    /// match, the watermark does not run ahead of the world, the parameter
    /// state has been shown exactly the archetypes below the watermark in
    /// discovery order, and the merged archetype-component descriptor is
    /// exactly the union of the claims on those archetypes — every observed
    /// archetype counted once, none twice.
    pub open spec fn observed(&self, world: World) -> bool {
        &&& self.spec_world_id() == world@.id
        &&& 0 <= self.generation() <= world@.archetypes.len()
        &&& self.param().seen() == world@.archetypes.take(self.generation())
        &&& self.param().writes().subset_of(self.sys_meta()@.component_access.writes)
        &&& self.sys_meta()@.archetype_component_access.reads_and_writes == merged_claims(
            self.param(),
            world@.archetypes.take(self.generation()),
        )
        &&& self.sys_meta()@.archetype_component_access.writes == merged_write_claims(
            self.param(),
            world@.archetypes.take(self.generation()),
        )
        &&& self.sys_meta()@.wf()
    }

    /// Builds the cached state against `world`: fresh metadata, the
    /// parameter state initialized (registering its component claims), the
    /// world's identity captured, and the watermark at the initial
    /// generation — no archetype observed yet.
    pub fn new(world: &mut World) -> (state: SystemState<P>)
        ensures
            final(world)@.id == old(world)@.id,
            final(world)@.change_tick == old(world)@.change_tick,
            final(world)@.archetypes == old(world)@.archetypes,
            old(world)@.slots.is_prefix_of(final(world)@.slots),
            state.observed(*final(world)),
            state.generation() == 0,
            state.spec_world_id() == old(world)@.id,
            state.sys_meta()@.name == Seq::<char>::empty(),
            state.sys_meta()@.last_change_tick == 0,
            state.sys_meta()@.archetype_component_access == AccessView::empty(),
            state.sys_meta()@.component_access == (AccessView {
                reads_and_writes: P::component_claims(),
                writes: P::component_write_claims(),
            }),
            state.param().writes() == P::component_write_claims(),
            state.param().pending_writes() == Seq::<(u64, u64)>::empty(),
    {
        let mut meta = SystemMeta::new(String::new());
        let param_state = P::init(world, &mut meta);
        let state = SystemState {
            meta,
            param_state,
            world_id: world.id(),
            archetype_generation: ArchetypeGeneration::initial(),
        };
        proof {
            assert(world@.archetypes.take(0) =~= Seq::<Seq<(u64, u64)>>::empty());
            assert(state.param().seen() == world@.archetypes.take(state.generation()));
            assert(state.sys_meta()@.archetype_component_access == AccessView::empty());
            assert(state.sys_meta()@.component_access.reads_and_writes
                =~= P::component_claims());
            assert(state.sys_meta()@.component_access.writes =~= P::component_write_claims());
        }
        state
    }

    pub fn meta(&self) -> (meta: &SystemMeta)
        ensures
            *meta == self.sys_meta(),
    {
        &self.meta
    }

    /// Identity comparison only: true exactly when `world` is the instance
    /// this state was built against.
    pub fn matches_world(&self, world: &World) -> (matches: bool)
        ensures
            matches == (self.spec_world_id() == world@.id),
    {
        self.world_id == world.id()
    }

    /// The validated refresh: walks every archetype discovered since the
    /// watermark, in ascending order, presents each to the parameter state
    /// exactly once, and advances the watermark. Afterwards the parameter
    /// state has seen precisely the archetypes the world has ever created,
    /// and the merged descriptor reflects each exactly once — so the
    /// scheduler may trust it for conflict analysis.
    pub fn validate_world_and_update_archetypes(&mut self, world: &World)
        requires
            old(self).observed(*world),
        ensures
            final(self).observed(*world),
            final(self).generation() == world@.archetypes.len(),
            final(self).param().seen() == world@.archetypes,
            final(self).param().writes() == old(self).param().writes(),
            final(self).param().pending_writes() == old(self).param().pending_writes(),
            final(self).spec_world_id() == old(self).spec_world_id(),
            forall|w: WorldView, t: u32| #[trigger]
                final(self).param().item_spec(w, t) == old(self).param().item_spec(w, t),
            final(self).sys_meta()@ == (SystemMetaView {
                archetype_component_access: AccessView {
                    reads_and_writes: merged_claims(final(self).param(), world@.archetypes),
                    writes: merged_write_claims(final(self).param(), world@.archetypes),
                },
                ..old(self).sys_meta()@
            }),
    {
        let new_generation = world.archetype_generation();
        let old_generation = self.archetype_generation;
        self.archetype_generation = new_generation;
        let mut index: usize = old_generation.value();
        proof {
            assert(self.meta@ == (SystemMetaView {
                archetype_component_access: AccessView {
                    reads_and_writes: merged_claims(
                        old(self).param(),
                        world@.archetypes.take(index as int),
                    ),
                    writes: merged_write_claims(
                        old(self).param(),
                        world@.archetypes.take(index as int),
                    ),
                },
                ..old(self).sys_meta()@
            }));
        }
        while index < new_generation.value()
            invariant
                old_generation.spec_value() <= index as int <= new_generation.spec_value(),
                new_generation.spec_value() == world@.archetypes.len(),
                self.archetype_generation == new_generation,
                self.world_id == old(self).spec_world_id(),
                self.param_state.seen() == world@.archetypes.take(index as int),
                self.param_state.writes() == old(self).param().writes(),
                self.param_state.pending_writes() == old(self).param().pending_writes(),
                forall|a: Seq<(u64, u64)>| #[trigger]
                    self.param_state.archetype_claims(a) == old(self).param().archetype_claims(a),
                forall|a: Seq<(u64, u64)>| #[trigger]
                    self.param_state.archetype_write_claims(a) == old(
                        self,
                    ).param().archetype_write_claims(a),
                forall|w: WorldView, t: u32| #[trigger]
                    self.param_state.item_spec(w, t) == old(self).param().item_spec(w, t),
                self.meta@ == (SystemMetaView {
                    archetype_component_access: AccessView {
                        reads_and_writes: merged_claims(
                            old(self).param(),
                            world@.archetypes.take(index as int),
                        ),
                        writes: merged_write_claims(
                            old(self).param(),
                            world@.archetypes.take(index as int),
                        ),
                    },
                    ..old(self).sys_meta()@
                }),
            decreases new_generation.spec_value() - index,
        {
            let ghost prefix = world@.archetypes.take(index as int);
            let archetype = world.archetype(index);
            self.param_state.new_archetype(archetype, &mut self.meta);
            proof {
                assert(world@.archetypes.take(index + 1) =~= prefix.push(archetype@));
                lemma_merged_claims_push(old(self).param(), prefix, archetype@);
                lemma_merged_claims_stable(
                    old(self).param(),
                    self.param_state,
                    world@.archetypes.take(index as int),
                );
            }
            index += 1;
        }
        proof {
            assert(world@.archetypes.take(world@.archetypes.len() as int) =~= world@.archetypes);
            lemma_merged_claims_stable(old(self).param(), self.param_state, world@.archetypes);
            lemma_merged_write_claims_subset(self.param_state, world@.archetypes);
            assert(self.meta@.wf());
        }
    }

    /// The unvalidated fetch: captures the next change tick, fetches the
    /// parameter value under the given token, and records the tick as the
    /// last-run tick. Skips the refresh, so the caller must have
    /// established — through other means — that the token's world is this
    /// state's world; a stale watermark only leaves the merged descriptor
    /// behind, which is the caller's responsibility on this path.
    pub fn get_unchecked(&mut self, world: &mut World, cell: &SemiSafeCell) -> (item: P::Item)
        requires
            old(self).observed(*old(world)),
            cell.world_id() == old(world)@.id,
            cell.is_mut() || P::read_only(),
        ensures
            final(self).observed(*final(world)),
            final(world)@ == (WorldView {
                change_tick: tick_after(old(world)@.change_tick),
                ..old(world)@
            }),
            item == old(self).param().item_spec(final(world)@, final(world)@.change_tick),
            final(self).sys_meta()@ == (SystemMetaView {
                last_change_tick: final(world)@.change_tick,
                ..old(self).sys_meta()@
            }),
            final(self).generation() == old(self).generation(),
            final(self).param().writes() == old(self).param().writes(),
            final(self).param().pending_writes() == old(self).param().pending_writes(),
    {
        let change_tick = world.increment_change_tick();
        let item = self.param_state.get_param(&self.meta, world, cell, change_tick);
        self.meta.set_last_change_tick(change_tick);
        proof {
            lemma_merged_claims_stable(
                old(self).param(),
                self.param_state,
                world@.archetypes.take(old(self).generation()),
            );
        }
        item
    }

    /// The validated read-only fetch: refreshes the watermark, then fetches
    /// through a token built from the shared borrow. Only parameter kinds
    /// that never write may come through here; the world is left untouched
    /// but for the advancing change counter.
    pub fn get(&mut self, world: &mut World) -> (item: P::Item)
        requires
            P::read_only(),
            old(self).observed(*old(world)),
        ensures
            final(self).observed(*final(world)),
            final(world)@ == (WorldView {
                change_tick: tick_after(old(world)@.change_tick),
                ..old(world)@
            }),
            item == old(self).param().item_spec(final(world)@, final(world)@.change_tick),
            final(self).generation() == old(world)@.archetypes.len(),
            final(self).sys_meta()@ == (SystemMetaView {
                last_change_tick: final(world)@.change_tick,
                archetype_component_access: AccessView {
                    reads_and_writes: merged_claims(
                        final(self).param(),
                        old(world)@.archetypes,
                    ),
                    writes: merged_write_claims(final(self).param(), old(world)@.archetypes),
                },
                ..old(self).sys_meta()@
            }),
    {
        self.validate_world_and_update_archetypes(world);
        let cell = SemiSafeCell::from_ref(world);
        self.get_unchecked(world, &cell)
    }

    /// The validated exclusive fetch: refreshes the watermark, then fetches
    /// through a token built from the exclusive borrow, which cannot alias
    /// by construction. Slot writes stay within the registered write
    /// claims.
    pub fn get_mut(&mut self, world: &mut World) -> (item: P::Item)
        requires
            old(self).observed(*old(world)),
        ensures
            final(self).observed(*final(world)),
            final(world)@ == (WorldView {
                change_tick: tick_after(old(world)@.change_tick),
                ..old(world)@
            }),
            item == old(self).param().item_spec(final(world)@, final(world)@.change_tick),
            final(self).generation() == old(world)@.archetypes.len(),
            final(self).sys_meta()@ == (SystemMetaView {
                last_change_tick: final(world)@.change_tick,
                archetype_component_access: AccessView {
                    reads_and_writes: merged_claims(
                        final(self).param(),
                        old(world)@.archetypes,
                    ),
                    writes: merged_write_claims(final(self).param(), old(world)@.archetypes),
                },
                ..old(self).sys_meta()@
            }),
    {
        self.validate_world_and_update_archetypes(world);
        let cell = SemiSafeCell::from_mut(world);
        self.get_unchecked(world, &cell)
    }

    /// Flushes exactly the effects the parameter state has buffered into
    /// the world, oldest first and confined to the registered write claims,
    /// leaving nothing buffered. Invoked at a synchronization point chosen
    /// by the scheduler, under exclusive access.
    pub fn apply(&mut self, world: &mut World)
        ensures
            old(self).observed(*old(world)) ==> final(self).observed(*final(world)),
            final(world)@.slots == apply_writes(
                old(world)@.slots,
                old(self).param().pending_writes(),
            ),
            final(self).param().pending_writes() == Seq::<(u64, u64)>::empty(),
            final(world)@.id == old(world)@.id,
            final(world)@.archetypes == old(world)@.archetypes,
            final(world)@.change_tick == old(world)@.change_tick,
            final(world)@.slots.len() == old(world)@.slots.len(),
            forall|k: int| #![trigger final(world)@.slots[k]]
                0 <= k < old(world)@.slots.len() && !old(self).param().writes().contains(k as u64)
                    ==> final(world)@.slots[k] == old(world)@.slots[k],
            final(self).sys_meta() == old(self).sys_meta(),
            final(self).spec_world_id() == old(self).spec_world_id(),
            final(self).generation() == old(self).generation(),
    {
        self.param_state.apply(world);
        proof {
            lemma_merged_claims_stable(
                old(self).param(),
                self.param_state,
                world@.archetypes.take(old(self).generation()),
            );
        }
    }
}

} // verus!
