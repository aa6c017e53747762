//! Per-system metadata: name, the merged access descriptors, the last-run
//! change tick, and the two one-directional latch flags (send affinity and
//! exclusivity). Also the wrapping change-tick clamp that keeps long-idle
//! systems from misreading ancient changes as unseen after counter
//! wraparound.

use vstd::prelude::*;

use crate::access::Access;
use crate::access::AccessView;

verus! {

/// Mathematical content of a [`SystemMeta`].
pub ghost struct SystemMetaView {
    pub name: Seq<char>,
    /// Merged claims over component (logical field) identifiers.
    pub component_access: AccessView,
    /// Merged claims over archetype-component (physical storage unit)
    /// identifiers, grown as archetypes are discovered.
    pub archetype_component_access: AccessView,
    /// The change tick captured when the system last ran.
    pub last_change_tick: u32,
    /// False once any parameter has pinned the system to the main context.
    pub is_send: bool,
    /// True once anything has demanded exclusive world access.
    pub is_exclusive: bool,
}

impl SystemMetaView {
    pub open spec fn wf(self) -> bool {
        self.component_access.wf() && self.archetype_component_access.wf()
    }

    /// The state every system starts from: no claims, tick zero, sendable,
    /// not exclusive.
    pub open spec fn initial(name: Seq<char>) -> SystemMetaView {
        SystemMetaView {
            name,
            component_access: AccessView::empty(),
            archetype_component_access: AccessView::empty(),
            last_change_tick: 0,
            is_send: true,
            is_exclusive: false,
        }
    }

    /// The step taken by [`SystemMeta::set_non_send`]. The result does not
    /// depend on the old flag, so the step is idempotent.
    pub open spec fn with_non_send(self) -> SystemMetaView {
        SystemMetaView { is_send: false, ..self }
    }

    /// The step taken by [`SystemMeta::set_exclusive`]; idempotent for the
    /// same reason.
    pub open spec fn with_exclusive(self) -> SystemMetaView {
        SystemMetaView { is_exclusive: true, ..self }
    }
}

/// The one-directional latch discipline: once send affinity has been revoked
/// it stays revoked, and once exclusivity has been demanded it stays
/// demanded. Every operation that mutates a [`SystemMeta`] promises this
/// relation between the old and the new view, so no call sequence can undo
/// either latch.
pub open spec fn latch_ok(before: SystemMetaView, after: SystemMetaView) -> bool {
    (!before.is_send ==> !after.is_send) && (before.is_exclusive ==> after.is_exclusive)
}

/// Latches compose across call sequences: if every single step keeps them,
/// any sequence of steps keeps them.
pub proof fn lemma_latch_ok_transitive(a: SystemMetaView, b: SystemMetaView, c: SystemMetaView)
    requires
        latch_ok(a, b),
        latch_ok(b, c),
    ensures
        latch_ok(a, c),
{
}

/// Revoking send affinity twice is the same as revoking it once, and it can
/// never be restored: the step always lands on `is_send == false` and every
/// step keeps that.
pub proof fn lemma_set_non_send_latch(v: SystemMetaView)
    ensures
        v.with_non_send().with_non_send() == v.with_non_send(),
        !v.with_non_send().is_send,
        latch_ok(v, v.with_non_send()),
        !v.with_non_send().with_exclusive().is_send,
{
}

/// Demanding exclusivity twice is the same as demanding it once, and it can
/// never be withdrawn.
pub proof fn lemma_set_exclusive_latch(v: SystemMetaView)
    ensures
        v.with_exclusive().with_exclusive() == v.with_exclusive(),
        v.with_exclusive().is_exclusive,
        latch_ok(v, v.with_exclusive()),
        v.with_exclusive().with_non_send().is_exclusive,
{
}

/// The longest tick age a system may reach before its last-run tick is
/// clamped: three quarters of the counter's period.
pub const MAX_CHANGE_AGE: u32 = (u32::MAX / 4) * 3;

/// Wrapping 32-bit subtraction, as the change-tick comparison performs it.
pub open spec fn wrapping_sub_spec(a: u32, b: u32) -> u32 {
    (((a as int) - (b as int)) % 0x1_0000_0000) as u32
}

/// How many invocations have happened since `last`, assuming the counter has
/// wrapped at most once.
pub open spec fn tick_delta(last: u32, current: u32) -> u32 {
    wrapping_sub_spec(current, last)
}

/// The last-run tick after the periodic check: unchanged while the age is
/// within [`MAX_CHANGE_AGE`], clamped to exactly that age behind `current`
/// otherwise.
pub open spec fn clamped_last_tick(last: u32, current: u32) -> u32 {
    if tick_delta(last, current) > MAX_CHANGE_AGE {
        wrapping_sub_spec(current, MAX_CHANGE_AGE)
    } else {
        last
    }
}

/// Wrapping 32-bit subtraction.
fn wrapping_sub_u32(a: u32, b: u32) -> (r: u32)
    ensures
        r == wrapping_sub_spec(a, b),
{
    if a >= b {
        a - b
    } else {
        a + (u32::MAX - b) + 1
    }
}

/// The periodic change-tick check. Computes how far `*last_change_tick`
/// trails `change_tick` under wrapping subtraction; when the distance
/// exceeds [`MAX_CHANGE_AGE`], clamps the last-run tick to that distance
/// behind the current tick and reports that a diagnostic warning is owed
/// (the caller owns the system's name and any logger). Must run once per
/// scheduling pass for every system, whether or not the system ran.
pub fn check_system_change_tick(last_change_tick: &mut u32, change_tick: u32) -> (warned: bool)
    ensures
        warned == (tick_delta(*old(last_change_tick), change_tick) > MAX_CHANGE_AGE),
        *final(last_change_tick) == clamped_last_tick(*old(last_change_tick), change_tick),
        !warned ==> *final(last_change_tick) == *old(last_change_tick),
{
    let tick_delta = wrapping_sub_u32(change_tick, *last_change_tick);
    if tick_delta > MAX_CHANGE_AGE {
        *last_change_tick = wrapping_sub_u32(change_tick, MAX_CHANGE_AGE);
        true
    } else {
        false
    }
}

/// Bridges the check's wrapping subtraction back to the scheduler's view:
/// starting from tick `t` and advancing the counter by `d` steps (mod 2^32)
/// yields a measured age of exactly `d`.
pub proof fn lemma_tick_delta_of_advance(t: u32, d: u32)
    ensures
        tick_delta(t, ((t as int + d as int) % 0x1_0000_0000) as u32) == d,
{
    let advanced = ((t as int + d as int) % 0x1_0000_0000) as u32;
    assert(advanced as int == (t as int + d as int) % 0x1_0000_0000);
    assert((advanced as int - t as int) % 0x1_0000_0000 == d as int) by (nonlinear_arith)
        requires
            advanced as int == (t as int + d as int) % 0x1_0000_0000,
            0 <= t < 0x1_0000_0000,
            0 <= d < 0x1_0000_0000,
    ;
}

/// The metadata of a system: its name, its merged access descriptors, the
/// change tick captured on its last run, and the two latch flags the
/// scheduler consults for placement.
pub struct SystemMeta {
    name: String,
    component_access_set: Access,
    archetype_component_access: Access,
    last_change_tick: u32,
    // Kept private: revoking send affinity is irreversible so that several
    // independently initialized parameters can each pin the system without
    // being able to undo one another's decision.
    is_send: bool,
    // Same one-directional discipline for exclusivity.
    is_exclusive: bool,
}

impl View for SystemMeta {
    type V = SystemMetaView;

    closed spec fn view(&self) -> SystemMetaView {
        SystemMetaView {
            name: self.name@,
            component_access: self.component_access_set@,
            archetype_component_access: self.archetype_component_access@,
            last_change_tick: self.last_change_tick,
            is_send: self.is_send,
            is_exclusive: self.is_exclusive,
        }
    }
}

impl SystemMeta {
    /// Fresh metadata for a system of the given name: empty access, tick
    /// zero, sendable, not exclusive.
    pub fn new(name: String) -> (meta: SystemMeta)
        ensures
            meta@ == SystemMetaView::initial(name@),
            meta@.wf(),
    {
        let meta = SystemMeta {
            name,
            component_access_set: Access::new(),
            archetype_component_access: Access::new(),
            last_change_tick: 0,
            is_send: true,
            is_exclusive: false,
        };
        meta
    }

    pub fn name(&self) -> (name: &String)
        ensures
            name@ == self@.name,
    {
        &self.name
    }

    /// Returns true if the system may run on any worker thread.
    pub fn is_send(&self) -> (send: bool)
        ensures
            send == self@.is_send,
    {
        self.is_send
    }

    /// Pins the system to the main context. Irreversible: no operation on
    /// this type ever sets the flag back, so once any parameter has decided
    /// the system is not sendable, that decision stands.
    pub fn set_non_send(&mut self)
        ensures
            final(self)@ == old(self)@.with_non_send(),
            latch_ok(old(self)@, final(self)@),
    {
        self.is_send = false;
    }

    /// Returns true if the system demands exclusive world access.
    pub fn is_exclusive(&self) -> (exclusive: bool)
        ensures
            exclusive == self@.is_exclusive,
    {
        self.is_exclusive
    }

    /// Demands exclusive world access. Irreversible, by the same
    /// one-directional discipline as [`SystemMeta::set_non_send`].
    pub fn set_exclusive(&mut self)
        ensures
            final(self)@ == old(self)@.with_exclusive(),
            latch_ok(old(self)@, final(self)@),
    {
        self.is_exclusive = true;
    }

    pub fn last_change_tick(&self) -> (tick: u32)
        ensures
            tick == self@.last_change_tick,
    {
        self.last_change_tick
    }

    /// Records the change tick captured by a run.
    pub fn set_last_change_tick(&mut self, tick: u32)
        ensures
            final(self)@ == (SystemMetaView { last_change_tick: tick, ..old(self)@ }),
            latch_ok(old(self)@, final(self)@),
    {
        self.last_change_tick = tick;
    }

    pub fn component_access(&self) -> (access: &Access)
        ensures
            access@ == self@.component_access,
    {
        &self.component_access_set
    }

    pub fn archetype_component_access(&self) -> (access: &Access)
        ensures
            access@ == self@.archetype_component_access,
    {
        &self.archetype_component_access
    }

    /// Registers a read claim on component `id`.
    pub fn register_component_read(&mut self, id: u64)
        ensures
            final(self)@ == (SystemMetaView {
                component_access: old(self)@.component_access.with_read(id),
                ..old(self)@
            }),
            latch_ok(old(self)@, final(self)@),
    {
        self.component_access_set.add_read(id);
    }

    /// Registers a write claim on component `id`.
    pub fn register_component_write(&mut self, id: u64)
        ensures
            final(self)@ == (SystemMetaView {
                component_access: old(self)@.component_access.with_write(id),
                ..old(self)@
            }),
            latch_ok(old(self)@, final(self)@),
    {
        self.component_access_set.add_write(id);
    }

    /// Registers a read claim on archetype component `id`.
    pub fn register_archetype_component_read(&mut self, id: u64)
        ensures
            final(self)@ == (SystemMetaView {
                archetype_component_access: old(self)@.archetype_component_access.with_read(id),
                ..old(self)@
            }),
            latch_ok(old(self)@, final(self)@),
    {
        self.archetype_component_access.add_read(id);
    }

    /// Registers a write claim on archetype component `id`.
    pub fn register_archetype_component_write(&mut self, id: u64)
        ensures
            final(self)@ == (SystemMetaView {
                archetype_component_access: old(self)@.archetype_component_access.with_write(id),
                ..old(self)@
            }),
            latch_ok(old(self)@, final(self)@),
    {
        self.archetype_component_access.add_write(id);
    }

    /// The periodic change-tick check applied to this system's own last-run
    /// tick; see [`check_system_change_tick`].
    pub fn check_change_tick(&mut self, change_tick: u32) -> (warned: bool)
        ensures
            warned == (tick_delta(old(self)@.last_change_tick, change_tick) > MAX_CHANGE_AGE),
            final(self)@ == (SystemMetaView {
                last_change_tick: clamped_last_tick(old(self)@.last_change_tick, change_tick),
                ..old(self)@
            }),
            latch_ok(old(self)@, final(self)@),
    {
        check_system_change_tick(&mut self.last_change_tick, change_tick)
    }
}

} // verus!
