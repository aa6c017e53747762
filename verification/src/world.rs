//! A minimal model of the shared store the systems run against: an identity,
//! a wrapping 32-bit change counter, an append-only sequence of archetypes
//! (the distinct data shapes discovered so far), and a flat store of slots
//! the parameter kinds read and write.

use vstd::prelude::*;

verus! {

/// One distinct data shape. Each entry pairs a component (logical field)
/// identifier with the archetype-component (physical storage unit)
/// identifier that holds that component within this shape.
pub struct Archetype {
    entries: Vec<(u64, u64)>,
}

impl View for Archetype {
    type V = Seq<(u64, u64)>;

    closed spec fn view(&self) -> Seq<(u64, u64)> {
        self.entries@
    }
}

/// The storage units of `archetype` that hold component `component`.
pub open spec fn units_of(archetype: Seq<(u64, u64)>, component: u64) -> Set<u64> {
    Set::new(
        |unit: u64|
            exists|k: int|
                0 <= k < archetype.len() && archetype[k] == (
                component,
                unit,
                ),
    )
}

impl Archetype {
    pub fn new(entries: Vec<(u64, u64)>) -> (archetype: Archetype)
        ensures
            archetype@ == entries@,
    {
        Archetype { entries }
    }

    pub fn len(&self) -> (n: usize)
        ensures
            n == self@.len(),
    {
        self.entries.len()
    }

    pub fn entry(&self, k: usize) -> (e: (u64, u64))
        requires
            k < self@.len(),
        ensures
            e == self@[k as int],
    {
        self.entries[k]
    }
}

/// An opaque, totally ordered watermark counting how many archetypes a
/// cached state has observed. [`ArchetypeGeneration::initial`] precedes every
/// generation any world ever reaches.
#[derive(Clone, Copy, PartialEq, Eq, Structural)]
pub struct ArchetypeGeneration {
    value: usize,
}

impl ArchetypeGeneration {
    pub closed spec fn spec_value(self) -> int {
        self.value as int
    }

    /// The generation before any archetype has been observed.
    pub fn initial() -> (generation: ArchetypeGeneration)
        ensures
            generation.spec_value() == 0,
    {
        ArchetypeGeneration { value: 0 }
    }

    pub fn value(self) -> (value: usize)
        ensures
            value == self.spec_value(),
    {
        self.value
    }
}

/// Mathematical content of a [`World`].
pub ghost struct WorldView {
    /// Instance identity; cached state built against one world must never be
    /// used with another.
    pub id: u64,
    /// The global change counter, incremented (wrapping) on every system
    /// invocation.
    pub change_tick: u32,
    /// Every archetype ever created, in discovery order. Append-only.
    pub archetypes: Seq<Seq<(u64, u64)>>,
    /// The flat data store the parameter kinds fetch from.
    pub slots: Seq<u64>,
}

/// The shared mutable store. It owns all structured data, a monotonically
/// wrapping change counter, and the append-only archetype list whose length
/// is the layout generation.
pub struct World {
    id: u64,
    change_tick: u32,
    archetypes: Vec<Archetype>,
    slots: Vec<u64>,
}

impl View for World {
    type V = WorldView;

    closed spec fn view(&self) -> WorldView {
        WorldView {
            id: self.id,
            change_tick: self.change_tick,
            archetypes: Seq::new(self.archetypes@.len(), |k: int| self.archetypes@[k]@),
            slots: self.slots@,
        }
    }
}

/// The change counter after one more invocation: wrapping increment.
pub open spec fn tick_after(tick: u32) -> u32 {
    if tick == u32::MAX {
        0
    } else {
        (tick + 1) as u32
    }
}

impl World {
    /// A fresh world under the caller-chosen identity `id`; the caller gives
    /// each live world a distinct identity.
    pub fn new(id: u64) -> (world: World)
        ensures
            world@.id == id,
            world@.change_tick == 0,
            world@.archetypes == Seq::<Seq<(u64, u64)>>::empty(),
            world@.slots == Seq::<u64>::empty(),
    {
        let world = World { id, change_tick: 0, archetypes: Vec::new(), slots: Vec::new() };
        proof {
            assert(world@.archetypes =~= Seq::<Seq<(u64, u64)>>::empty());
        }
        world
    }

    pub fn id(&self) -> (id: u64)
        ensures
            id == self@.id,
    {
        self.id
    }

    pub fn change_tick(&self) -> (tick: u32)
        ensures
            tick == self@.change_tick,
    {
        self.change_tick
    }

    /// Advances the global change counter by one, wrapping at the 32-bit
    /// boundary, and returns the counter's new value.
    pub fn increment_change_tick(&mut self) -> (tick: u32)
        ensures
            final(self)@ == (WorldView {
                change_tick: tick_after(old(self)@.change_tick),
                ..old(self)@
            }),
            tick == final(self)@.change_tick,
    {
        if self.change_tick == u32::MAX {
            self.change_tick = 0;
        } else {
            self.change_tick = self.change_tick + 1;
        }
        self.change_tick
    }

    /// The current layout generation: how many distinct archetypes have ever
    /// been created in this world.
    pub fn archetype_generation(&self) -> (generation: ArchetypeGeneration)
        ensures
            generation.spec_value() == self@.archetypes.len(),
    {
        ArchetypeGeneration { value: self.archetypes.len() }
    }

    pub fn archetype(&self, index: usize) -> (archetype: &Archetype)
        requires
            index < self@.archetypes.len(),
        ensures
            archetype@ == self@.archetypes[index as int],
    {
        &self.archetypes[index]
    }

    /// Records a newly discovered data shape. The archetype list is
    /// append-only, so every generation a cached state has observed stays
    /// observed.
    pub fn add_archetype(&mut self, archetype: Archetype)
        ensures
            final(self)@ == (WorldView {
                archetypes: old(self)@.archetypes.push(archetype@),
                ..old(self)@
            }),
    {
        self.archetypes.push(archetype);
        proof {
            assert(self@.archetypes =~= old(self)@.archetypes.push(archetype@));
        }
    }

    /// Adds a data slot holding `value` and returns its identifier.
    pub fn add_slot(&mut self, value: u64) -> (slot: u64)
        ensures
            final(self)@ == (WorldView { slots: old(self)@.slots.push(value), ..old(self)@ }),
            slot == old(self)@.slots.len(),
    {
        let slot = self.slots.len() as u64;
        self.slots.push(value);
        slot
    }

    pub fn slot_count(&self) -> (n: u64)
        ensures
            n == self@.slots.len(),
    {
        self.slots.len() as u64
    }

    /// The value held in `slot`, or zero for a slot this world does not have.
    pub fn read_slot(&self, slot: u64) -> (value: u64)
        ensures
            value == if slot < self@.slots.len() {
                self@.slots[slot as int]
            } else {
                0u64
            },
    {
        if slot < self.slots.len() as u64 {
            self.slots[slot as usize]
        } else {
            0
        }
    }

    /// Stores `value` in `slot`; a slot this world does not have is left as
    /// it is.
    pub fn write_slot(&mut self, slot: u64, value: u64)
        ensures
            final(self)@ == (WorldView {
                slots: if slot < old(self)@.slots.len() {
                    old(self)@.slots.update(slot as int, value)
                } else {
                    old(self)@.slots
                },
                ..old(self)@
            }),
    {
        if slot < self.slots.len() as u64 {
            let index = slot as usize;
            self.slots[index] = value;
        }
    }
}

} // verus!
