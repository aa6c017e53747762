//! The per-parameter-kind persistent state contract: created once against a
//! world, told about every newly discovered archetype exactly once, asked to
//! fetch its concrete value on every invocation, and asked to flush buffered
//! effects at synchronization points. Two slot-backed parameter kinds and a
//! pair combinator implement the contract.

use vstd::prelude::*;

use crate::access::AccessView;
use crate::cell::SemiSafeCell;
use crate::meta::SystemMeta;
use crate::meta::SystemMetaView;
use crate::meta::latch_ok;
use crate::world::Archetype;
use crate::world::World;
use crate::world::WorldView;
use crate::world::units_of;

verus! {

/// Persistent state driving one declared parameter of a system.
///
/// The contract every kind must honor:
/// - `init` registers the kind's component claims into the owning metadata
///   and starts with no archetype observed;
/// - `new_archetype` is shown each newly discovered archetype exactly once,
///   in discovery order, and grows the merged archetype-component descriptor
///   by exactly this kind's claims on that archetype;
/// - `get_param` produces the value the callable sees, touching only slots
///   within this kind's registered write claims, and only ever runs under an
///   exclusive token or for a read-only kind;
/// - `apply` flushes buffered effects, again confined to the write claims.
/// The slot store after flushing a queue of buffered writes, oldest first;
/// a write aimed at a slot the world does not have is dropped, as
/// [`World::write_slot`] drops it.
pub open spec fn apply_writes(slots: Seq<u64>, pending: Seq<(u64, u64)>) -> Seq<u64>
    decreases pending.len(),
{
    if pending.len() == 0 {
        slots
    } else {
        apply_writes(
            if pending[0].0 < slots.len() {
                slots.update(pending[0].0 as int, pending[0].1)
            } else {
                slots
            },
            pending.drop_first(),
        )
    }
}

pub trait SystemParamState: Sized {
    /// The concrete value handed to the callable.
    type Item;

    /// True of kinds that never register write access; only such kinds may
    /// be fetched through a shared token.
    spec fn read_only() -> bool;

    /// The component (field) identifiers this kind touches; fixed by the
    /// kind's type and registered, exactly, at initialization.
    spec fn component_claims() -> Set<u64>;

    /// The component identifiers this kind writes.
    spec fn component_write_claims() -> Set<u64>;

    /// The slot identifiers this state may write.
    spec fn writes(&self) -> Set<u64>;

    /// The archetypes this state has been shown, in discovery order.
    spec fn seen(&self) -> Seq<Seq<(u64, u64)>>;

    /// The slot writes this state has buffered and not yet flushed, oldest
    /// first: what the next [`SystemParamState::apply`] will perform.
    spec fn pending_writes(&self) -> Seq<(u64, u64)>;

    /// The value one fetch produces, as a function of the world's content
    /// and the change tick captured for the invocation.
    spec fn item_spec(&self, world: WorldView, change_tick: u32) -> Self::Item;

    /// The storage units this kind touches in the given archetype.
    spec fn archetype_claims(&self, archetype: Seq<(u64, u64)>) -> Set<u64>;

    /// The storage units this kind writes in the given archetype.
    spec fn archetype_write_claims(&self, archetype: Seq<(u64, u64)>) -> Set<u64>;

    /// Write claims are claims: whatever a kind would write in an archetype
    /// it also touches there.
    proof fn archetype_write_claims_subset(&self, archetype: Seq<(u64, u64)>)
        ensures
            self.archetype_write_claims(archetype).subset_of(self.archetype_claims(archetype)),
    ;

    /// The same discipline at the component level, and the meaning of the
    /// read-only marker: a read-only kind claims no write at all.
    proof fn component_claims_wf()
        ensures
            Self::component_write_claims().subset_of(Self::component_claims()),
            Self::read_only() ==> Self::component_write_claims() == Set::<u64>::empty(),
    ;

    /// Allocates the persistent state against `world`, registering this
    /// kind's component claims into `meta` — exactly those, no more and no
    /// fewer. Touches nothing else of the metadata.
    fn init(world: &mut World, meta: &mut SystemMeta) -> (state: Self)
        ensures
            state.seen() == Seq::<Seq<(u64, u64)>>::empty(),
            state.pending_writes() == Seq::<(u64, u64)>::empty(),
            state.writes() == Self::component_write_claims(),
            final(world)@.id == old(world)@.id,
            final(world)@.change_tick == old(world)@.change_tick,
            final(world)@.archetypes == old(world)@.archetypes,
            old(world)@.slots.is_prefix_of(final(world)@.slots),
            final(meta)@.name == old(meta)@.name,
            final(meta)@.last_change_tick == old(meta)@.last_change_tick,
            final(meta)@.archetype_component_access == old(meta)@.archetype_component_access,
            latch_ok(old(meta)@, final(meta)@),
            final(meta)@.component_access == (AccessView {
                reads_and_writes: old(meta)@.component_access.reads_and_writes.union(
                    Self::component_claims(),
                ),
                writes: old(meta)@.component_access.writes.union(
                    Self::component_write_claims(),
                ),
            }),
            old(meta)@.wf() ==> final(meta)@.wf(),
    ;

    /// Accounts for one newly discovered archetype: grows the merged
    /// archetype-component descriptor by exactly this kind's claims on it
    /// and records the archetype as seen. Called once per archetype, in
    /// discovery order.
    fn new_archetype(&mut self, archetype: &Archetype, meta: &mut SystemMeta)
        ensures
            final(self).seen() == old(self).seen().push(archetype@),
            final(self).pending_writes() == old(self).pending_writes(),
            final(self).writes() == old(self).writes(),
            forall|a: Seq<(u64, u64)>| #[trigger]
                final(self).archetype_claims(a) == old(self).archetype_claims(a),
            forall|a: Seq<(u64, u64)>| #[trigger]
                final(self).archetype_write_claims(a) == old(self).archetype_write_claims(a),
            forall|w: WorldView, t: u32| #[trigger]
                final(self).item_spec(w, t) == old(self).item_spec(w, t),
            final(meta)@ == (SystemMetaView {
                archetype_component_access: AccessView {
                    reads_and_writes: old(
                        meta,
                    )@.archetype_component_access.reads_and_writes.union(
                        old(self).archetype_claims(archetype@),
                    ),
                    writes: old(meta)@.archetype_component_access.writes.union(
                        old(self).archetype_write_claims(archetype@),
                    ),
                },
                ..old(meta)@
            }),
    ;

    /// Produces the concrete value for one invocation. Demands an exclusive
    /// token unless the kind is read-only, and touches no slot outside the
    /// kind's write claims. The change counter, the archetypes and the
    /// world's identity are never touched from here.
    fn get_param(
        &mut self,
        meta: &SystemMeta,
        world: &World,
        cell: &SemiSafeCell,
        change_tick: u32,
    ) -> (item: Self::Item)
        requires
            cell.world_id() == world@.id,
            cell.is_mut() || Self::read_only(),
        ensures
            item == old(self).item_spec(world@, change_tick),
            final(self).seen() == old(self).seen(),
            final(self).pending_writes() == old(self).pending_writes(),
            final(self).writes() == old(self).writes(),
            forall|a: Seq<(u64, u64)>| #[trigger]
                final(self).archetype_claims(a) == old(self).archetype_claims(a),
            forall|a: Seq<(u64, u64)>| #[trigger]
                final(self).archetype_write_claims(a) == old(self).archetype_write_claims(a),
            forall|w: WorldView, t: u32| #[trigger]
                final(self).item_spec(w, t) == old(self).item_spec(w, t),
    ;

    /// Flushes exactly the buffered writes into the world, oldest first,
    /// leaving nothing buffered; invoked only under exclusive access, at a
    /// synchronization point the scheduler chooses. Writes stay confined to
    /// the kind's write claims.
    fn apply(&mut self, world: &mut World)
        ensures
            final(world)@.slots == apply_writes(old(world)@.slots, old(self).pending_writes()),
            final(self).pending_writes() == Seq::<(u64, u64)>::empty(),
            final(self).seen() == old(self).seen(),
            final(self).writes() == old(self).writes(),
            forall|a: Seq<(u64, u64)>| #[trigger]
                final(self).archetype_claims(a) == old(self).archetype_claims(a),
            forall|a: Seq<(u64, u64)>| #[trigger]
                final(self).archetype_write_claims(a) == old(self).archetype_write_claims(a),
            forall|w: WorldView, t: u32| #[trigger]
                final(self).item_spec(w, t) == old(self).item_spec(w, t),
            final(world)@.id == old(world)@.id,
            final(world)@.change_tick == old(world)@.change_tick,
            final(world)@.archetypes == old(world)@.archetypes,
            final(world)@.slots.len() == old(world)@.slots.len(),
            forall|k: int| #![trigger final(world)@.slots[k]]
                0 <= k < old(world)@.slots.len() && !old(self).writes().contains(k as u64)
                    ==> final(world)@.slots[k] == old(world)@.slots[k],
    ;
}

/// How one step of an archetype scan changes the claimed storage units:
/// entry `k` contributes its unit exactly when it carries the component.
proof fn lemma_units_of_take_step(archetype: Seq<(u64, u64)>, component: u64, k: int)
    requires
        0 <= k < archetype.len(),
    ensures
        archetype[k].0 == component ==> units_of(archetype.take(k + 1), component) == units_of(
            archetype.take(k),
            component,
        ).insert(archetype[k].1),
        archetype[k].0 != component ==> units_of(archetype.take(k + 1), component) == units_of(
            archetype.take(k),
            component,
        ),
{
    let s0 = archetype.take(k);
    let s1 = archetype.take(k + 1);
    assert forall|unit: u64| units_of(s1, component).contains(unit) implies units_of(
        s0,
        component,
    ).contains(unit) || (archetype[k].0 == component && unit == archetype[k].1) by {
        let j = choose|j: int| 0 <= j < s1.len() && s1[j] == (component, unit);
        if j < k {
            assert(s0[j] == (component, unit));
        } else {
            assert(s1[j] == archetype[k]);
        }
    }
    assert forall|unit: u64| units_of(s0, component).contains(unit) implies units_of(
        s1,
        component,
    ).contains(unit) by {
        let j = choose|j: int| 0 <= j < s0.len() && s0[j] == (component, unit);
        assert(s1[j] == (component, unit));
    }
    if archetype[k].0 == component {
        assert(s1[k] == (component, archetype[k].1));
        assert(units_of(s1, component) =~= units_of(s0, component).insert(archetype[k].1));
    } else {
        assert(units_of(s1, component) =~= units_of(s0, component));
    }
}

/// Scanning a whole archetype claims exactly its units for the component.
proof fn lemma_units_of_take_all(archetype: Seq<(u64, u64)>, component: u64)
    ensures
        units_of(archetype.take(archetype.len() as int), component) == units_of(
            archetype,
            component,
        ),
{
    assert(archetype.take(archetype.len() as int) =~= archetype);
}

/// Prefixes compose: a prefix of a prefix is a prefix.
proof fn lemma_prefix_transitive(a: Seq<u64>, b: Seq<u64>, c: Seq<u64>)
    requires
        a.is_prefix_of(b),
        b.is_prefix_of(c),
    ensures
        a.is_prefix_of(c),
{
    assert(a =~= c.take(a.len() as int)) by {
        assert(forall|i: int|
            0 <= i < a.len() ==> a[i] == #[trigger] b.take(a.len() as int)[i]);
        assert(forall|i: int|
            0 <= i < b.len() ==> b[i] == #[trigger] c.take(b.len() as int)[i]);
    }
}

/// The empty parameter: claims nothing, fetches nothing. The identity of
/// parameter composition, for callables that take no data from the world.
pub struct EmptyParam {
    seen_log: Ghost<Seq<Seq<(u64, u64)>>>,
}

impl SystemParamState for EmptyParam {
    type Item = ();

    open spec fn read_only() -> bool {
        true
    }

    open spec fn component_claims() -> Set<u64> {
        Set::empty()
    }

    open spec fn component_write_claims() -> Set<u64> {
        Set::empty()
    }

    open spec fn writes(&self) -> Set<u64> {
        Set::empty()
    }

    closed spec fn seen(&self) -> Seq<Seq<(u64, u64)>> {
        self.seen_log@
    }

    open spec fn pending_writes(&self) -> Seq<(u64, u64)> {
        Seq::empty()
    }

    open spec fn item_spec(&self, world: WorldView, change_tick: u32) -> () {
        ()
    }

    open spec fn archetype_claims(&self, archetype: Seq<(u64, u64)>) -> Set<u64> {
        Set::empty()
    }

    open spec fn archetype_write_claims(&self, archetype: Seq<(u64, u64)>) -> Set<u64> {
        Set::empty()
    }

    proof fn archetype_write_claims_subset(&self, archetype: Seq<(u64, u64)>) {
    }

    proof fn component_claims_wf() {
    }

    fn init(world: &mut World, meta: &mut SystemMeta) -> (state: Self) {
        let state = EmptyParam { seen_log: Ghost(Seq::empty()) };
        proof {
            assert(world@.slots.is_prefix_of(world@.slots));
            assert(meta@.component_access.reads_and_writes
                =~= meta@.component_access.reads_and_writes.union(Self::component_claims()));
            assert(meta@.component_access.writes
                =~= meta@.component_access.writes.union(Self::component_write_claims()));
        }
        state
    }

    fn new_archetype(&mut self, archetype: &Archetype, meta: &mut SystemMeta) {
        proof {
            assert(meta@.archetype_component_access.reads_and_writes
                =~= meta@.archetype_component_access.reads_and_writes.union(
                self.archetype_claims(archetype@),
            ));
            assert(meta@.archetype_component_access.writes
                =~= meta@.archetype_component_access.writes.union(
                self.archetype_write_claims(archetype@),
            ));
        }
        self.seen_log = Ghost(self.seen_log@.push(archetype@));
    }

    fn get_param(
        &mut self,
        meta: &SystemMeta,
        world: &World,
        cell: &SemiSafeCell,
        change_tick: u32,
    ) -> (item: Self::Item) {
    }

    fn apply(&mut self, world: &mut World) {
    }
}

/// A parameter kind reading one data slot: claims read access to the slot's
/// component identifier and to every storage unit holding it, never writes,
/// and fetches the slot's current value.
pub struct ReadSlot<const SLOT: u64> {
    seen_log: Ghost<Seq<Seq<(u64, u64)>>>,
}

impl<const SLOT: u64> SystemParamState for ReadSlot<SLOT> {
    type Item = u64;

    open spec fn read_only() -> bool {
        true
    }

    open spec fn component_claims() -> Set<u64> {
        Set::empty().insert(SLOT)
    }

    open spec fn component_write_claims() -> Set<u64> {
        Set::empty()
    }

    open spec fn writes(&self) -> Set<u64> {
        Set::empty()
    }

    closed spec fn seen(&self) -> Seq<Seq<(u64, u64)>> {
        self.seen_log@
    }

    open spec fn pending_writes(&self) -> Seq<(u64, u64)> {
        Seq::empty()
    }

    open spec fn item_spec(&self, world: WorldView, change_tick: u32) -> u64 {
        if SLOT < world.slots.len() {
            world.slots[SLOT as int]
        } else {
            0
        }
    }

    open spec fn archetype_claims(&self, archetype: Seq<(u64, u64)>) -> Set<u64> {
        units_of(archetype, SLOT)
    }

    open spec fn archetype_write_claims(&self, archetype: Seq<(u64, u64)>) -> Set<u64> {
        Set::empty()
    }

    proof fn archetype_write_claims_subset(&self, archetype: Seq<(u64, u64)>) {
    }

    proof fn component_claims_wf() {
    }

    fn init(world: &mut World, meta: &mut SystemMeta) -> (state: Self) {
        meta.register_component_read(SLOT);
        let state = ReadSlot { seen_log: Ghost(Seq::empty()) };
        proof {
            assert(world@.slots.is_prefix_of(world@.slots));
            assert(meta@.component_access.reads_and_writes
                =~= old(meta)@.component_access.reads_and_writes.union(Self::component_claims()));
            assert(meta@.component_access.writes
                =~= old(meta)@.component_access.writes.union(Self::component_write_claims()));
        }
        state
    }

    fn new_archetype(&mut self, archetype: &Archetype, meta: &mut SystemMeta) {
        let n = archetype.len();
        proof {
            assert(units_of(archetype@.take(0), SLOT) =~= Set::<u64>::empty());
            assert(meta@.archetype_component_access.reads_and_writes.union(
                units_of(archetype@.take(0), SLOT),
            ) =~= meta@.archetype_component_access.reads_and_writes);
            assert(meta@.archetype_component_access.writes.union(
                units_of(archetype@.take(0), SLOT),
            ) =~= meta@.archetype_component_access.writes);
        }
        let mut k: usize = 0;
        while k < n
            invariant
                n == archetype@.len(),
                k <= n,
                meta@ == (SystemMetaView {
                    archetype_component_access: AccessView {
                        reads_and_writes: old(
                            meta,
                        )@.archetype_component_access.reads_and_writes.union(
                            units_of(archetype@.take(k as int), SLOT),
                        ),
                        writes: old(meta)@.archetype_component_access.writes,
                    },
                    ..old(meta)@
                }),
                self == old(self),
            decreases n - k,
        {
            let ghost claimed = meta@.archetype_component_access.reads_and_writes;
            let entry = archetype.entry(k);
            if entry.0 == SLOT {
                meta.register_archetype_component_read(entry.1);
            }
            proof {
                lemma_units_of_take_step(archetype@, SLOT, k as int);
                if entry.0 == SLOT {
                    assert(claimed.insert(entry.1)
                        =~= old(meta)@.archetype_component_access.reads_and_writes.union(
                        units_of(archetype@.take(k as int + 1), SLOT),
                    ));
                }
            }
            k += 1;
        }
        proof {
            lemma_units_of_take_all(archetype@, SLOT);
            assert(old(meta)@.archetype_component_access.writes.union(Set::<u64>::empty())
                =~= old(meta)@.archetype_component_access.writes);
            assert(meta@.archetype_component_access == AccessView {
                reads_and_writes: old(meta)@.archetype_component_access.reads_and_writes.union(
                    old(self).archetype_claims(archetype@),
                ),
                writes: old(meta)@.archetype_component_access.writes.union(
                    old(self).archetype_write_claims(archetype@),
                ),
            });
        }
        self.seen_log = Ghost(self.seen_log@.push(archetype@));
    }

    fn get_param(
        &mut self,
        meta: &SystemMeta,
        world: &World,
        cell: &SemiSafeCell,
        change_tick: u32,
    ) -> (item: Self::Item) {
        world.read_slot(SLOT)
    }

    fn apply(&mut self, world: &mut World) {
    }
}

/// A parameter kind with write access to one data slot: claims write access
/// to the slot's component identifier and to every storage unit holding it.
/// The fetch hands the callable the slot's current value; the write claim is
/// what entitles the callable to store a new one.
pub struct WriteSlot<const SLOT: u64> {
    seen_log: Ghost<Seq<Seq<(u64, u64)>>>,
}

impl<const SLOT: u64> SystemParamState for WriteSlot<SLOT> {
    type Item = u64;

    open spec fn read_only() -> bool {
        false
    }

    open spec fn component_claims() -> Set<u64> {
        Set::empty().insert(SLOT)
    }

    open spec fn component_write_claims() -> Set<u64> {
        Set::empty().insert(SLOT)
    }

    open spec fn writes(&self) -> Set<u64> {
        Set::empty().insert(SLOT)
    }

    closed spec fn seen(&self) -> Seq<Seq<(u64, u64)>> {
        self.seen_log@
    }

    open spec fn pending_writes(&self) -> Seq<(u64, u64)> {
        Seq::empty()
    }

    open spec fn item_spec(&self, world: WorldView, change_tick: u32) -> u64 {
        if SLOT < world.slots.len() {
            world.slots[SLOT as int]
        } else {
            0
        }
    }

    open spec fn archetype_claims(&self, archetype: Seq<(u64, u64)>) -> Set<u64> {
        units_of(archetype, SLOT)
    }

    open spec fn archetype_write_claims(&self, archetype: Seq<(u64, u64)>) -> Set<u64> {
        units_of(archetype, SLOT)
    }

    proof fn archetype_write_claims_subset(&self, archetype: Seq<(u64, u64)>) {
    }

    proof fn component_claims_wf() {
    }

    fn init(world: &mut World, meta: &mut SystemMeta) -> (state: Self) {
        meta.register_component_write(SLOT);
        let state = WriteSlot { seen_log: Ghost(Seq::empty()) };
        proof {
            assert(world@.slots.is_prefix_of(world@.slots));
            assert(meta@.component_access.reads_and_writes
                =~= old(meta)@.component_access.reads_and_writes.union(Self::component_claims()));
            assert(meta@.component_access.writes
                =~= old(meta)@.component_access.writes.union(Self::component_write_claims()));
        }
        state
    }

    fn new_archetype(&mut self, archetype: &Archetype, meta: &mut SystemMeta) {
        let n = archetype.len();
        proof {
            assert(units_of(archetype@.take(0), SLOT) =~= Set::<u64>::empty());
            assert(meta@.archetype_component_access.reads_and_writes.union(
                units_of(archetype@.take(0), SLOT),
            ) =~= meta@.archetype_component_access.reads_and_writes);
            assert(meta@.archetype_component_access.writes.union(
                units_of(archetype@.take(0), SLOT),
            ) =~= meta@.archetype_component_access.writes);
        }
        let mut k: usize = 0;
        while k < n
            invariant
                n == archetype@.len(),
                k <= n,
                meta@ == (SystemMetaView {
                    archetype_component_access: AccessView {
                        reads_and_writes: old(
                            meta,
                        )@.archetype_component_access.reads_and_writes.union(
                            units_of(archetype@.take(k as int), SLOT),
                        ),
                        writes: old(meta)@.archetype_component_access.writes.union(
                            units_of(archetype@.take(k as int), SLOT),
                        ),
                    },
                    ..old(meta)@
                }),
                self == old(self),
            decreases n - k,
        {
            let ghost claimed = meta@.archetype_component_access.reads_and_writes;
            let ghost claimed_writes = meta@.archetype_component_access.writes;
            let entry = archetype.entry(k);
            if entry.0 == SLOT {
                meta.register_archetype_component_write(entry.1);
            }
            proof {
                lemma_units_of_take_step(archetype@, SLOT, k as int);
                if entry.0 == SLOT {
                    assert(claimed.insert(entry.1)
                        =~= old(meta)@.archetype_component_access.reads_and_writes.union(
                        units_of(archetype@.take(k as int + 1), SLOT),
                    ));
                    assert(claimed_writes.insert(entry.1)
                        =~= old(meta)@.archetype_component_access.writes.union(
                        units_of(archetype@.take(k as int + 1), SLOT),
                    ));
                }
            }
            k += 1;
        }
        proof {
            lemma_units_of_take_all(archetype@, SLOT);
            assert(meta@.archetype_component_access == AccessView {
                reads_and_writes: old(meta)@.archetype_component_access.reads_and_writes.union(
                    old(self).archetype_claims(archetype@),
                ),
                writes: old(meta)@.archetype_component_access.writes.union(
                    old(self).archetype_write_claims(archetype@),
                ),
            });
        }
        self.seen_log = Ghost(self.seen_log@.push(archetype@));
    }

    fn get_param(
        &mut self,
        meta: &SystemMeta,
        world: &World,
        cell: &SemiSafeCell,
        change_tick: u32,
    ) -> (item: Self::Item) {
        world.read_slot(SLOT)
    }

    fn apply(&mut self, world: &mut World) {
    }
}

/// Flushing two queues one after the other is flushing their
/// concatenation.
proof fn lemma_apply_writes_split(slots: Seq<u64>, first: Seq<(u64, u64)>, second: Seq<(u64, u64)>)
    ensures
        apply_writes(apply_writes(slots, first), second) == apply_writes(slots, first + second),
    decreases first.len(),
{
    if first.len() == 0 {
        assert(first + second =~= second);
    } else {
        let stepped = if first[0].0 < slots.len() {
            slots.update(first[0].0 as int, first[0].1)
        } else {
            slots
        };
        assert((first + second).drop_first() =~= first.drop_first() + second);
        lemma_apply_writes_split(stepped, first.drop_first(), second);
    }
}

/// Parameter composition: two parameter states driven as one. Arbitrary
/// tuples of declared parameters reduce to nested pairs.
pub struct ParamPair<A, B> {
    pub first: A,
    pub second: B,
}

impl<A: SystemParamState, B: SystemParamState> SystemParamState for ParamPair<A, B> {
    type Item = (A::Item, B::Item);

    open spec fn read_only() -> bool {
        A::read_only() && B::read_only()
    }

    open spec fn component_claims() -> Set<u64> {
        A::component_claims().union(B::component_claims())
    }

    open spec fn component_write_claims() -> Set<u64> {
        A::component_write_claims().union(B::component_write_claims())
    }

    open spec fn writes(&self) -> Set<u64> {
        self.first.writes().union(self.second.writes())
    }

    open spec fn seen(&self) -> Seq<Seq<(u64, u64)>> {
        self.first.seen()
    }

    open spec fn pending_writes(&self) -> Seq<(u64, u64)> {
        self.first.pending_writes() + self.second.pending_writes()
    }

    open spec fn item_spec(&self, world: WorldView, change_tick: u32) -> (A::Item, B::Item) {
        (self.first.item_spec(world, change_tick), self.second.item_spec(world, change_tick))
    }

    open spec fn archetype_claims(&self, archetype: Seq<(u64, u64)>) -> Set<u64> {
        self.first.archetype_claims(archetype).union(self.second.archetype_claims(archetype))
    }

    open spec fn archetype_write_claims(&self, archetype: Seq<(u64, u64)>) -> Set<u64> {
        self.first.archetype_write_claims(archetype).union(
            self.second.archetype_write_claims(archetype),
        )
    }

    proof fn archetype_write_claims_subset(&self, archetype: Seq<(u64, u64)>) {
        self.first.archetype_write_claims_subset(archetype);
        self.second.archetype_write_claims_subset(archetype);
    }

    proof fn component_claims_wf() {
        A::component_claims_wf();
        B::component_claims_wf();
        assert(Self::component_write_claims().subset_of(Self::component_claims()));
        if Self::read_only() {
            assert(Self::component_write_claims() =~= Set::<u64>::empty());
        }
    }

    fn init(world: &mut World, meta: &mut SystemMeta) -> (state: Self) {
        let ghost slots0 = old(world)@.slots;
        let first = A::init(world, meta);
        let ghost slots1 = world@.slots;
        let second = B::init(world, meta);
        let state = ParamPair { first, second };
        proof {
            lemma_prefix_transitive(slots0, slots1, world@.slots);
            assert(state.writes() =~= Self::component_write_claims());
            assert(state.pending_writes() =~= Seq::<(u64, u64)>::empty());
            assert(meta@.component_access.reads_and_writes
                =~= old(meta)@.component_access.reads_and_writes.union(Self::component_claims()));
            assert(meta@.component_access.writes
                =~= old(meta)@.component_access.writes.union(Self::component_write_claims()));
        }
        state
    }

    fn new_archetype(&mut self, archetype: &Archetype, meta: &mut SystemMeta) {
        self.first.new_archetype(archetype, &mut *meta);
        self.second.new_archetype(archetype, &mut *meta);
        proof {
            assert(meta@.archetype_component_access.reads_and_writes
                =~= old(meta)@.archetype_component_access.reads_and_writes.union(
                old(self).archetype_claims(archetype@),
            ));
            assert(meta@.archetype_component_access.writes
                =~= old(meta)@.archetype_component_access.writes.union(
                old(self).archetype_write_claims(archetype@),
            ));
        }
    }

    fn get_param(
        &mut self,
        meta: &SystemMeta,
        world: &World,
        cell: &SemiSafeCell,
        change_tick: u32,
    ) -> (item: Self::Item) {
        let first_item = self.first.get_param(meta, world, cell, change_tick);
        let second_item = self.second.get_param(meta, world, cell, change_tick);
        (first_item, second_item)
    }

    fn apply(&mut self, world: &mut World) {
        self.first.apply(world);
        self.second.apply(world);
        proof {
            lemma_apply_writes_split(
                old(world)@.slots,
                old(self).first.pending_writes(),
                old(self).second.pending_writes(),
            );
            assert(self.pending_writes() =~= Seq::<(u64, u64)>::empty());
        }
    }
}

/// A parameter kind that writes is refused the shared fetch path at the
/// contract level: the slot-reading kind is read-only, the slot-writing
/// kind never is.
pub proof fn lemma_shared_fetch_demands_read_only<const SLOT: u64>()
    ensures
        ReadSlot::<SLOT>::read_only(),
        !WriteSlot::<SLOT>::read_only(),
{
}

/// A composed parameter may take the shared fetch path only when every
/// component kind is read-only: one writing component poisons the whole
/// composition.
pub proof fn lemma_pair_read_only<A: SystemParamState, B: SystemParamState>()
    ensures
        ParamPair::<A, B>::read_only() == (A::read_only() && B::read_only()),
{
}

} // verus!
