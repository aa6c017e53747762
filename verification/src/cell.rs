//! The access capability handed to parameter fetches: a copy-cheap token
//! recording whether it was built from a shared or an exclusive borrow of a
//! world, and which world that was. The token enforces nothing at run time;
//! the fetch contracts demand an exclusive token (or read-only parameters)
//! before any access, and the scheduler's conflict analysis is what keeps
//! concurrently active tokens from aliasing.

use vstd::prelude::*;

use crate::world::World;

verus! {

/// A capability granting a shared or an exclusive view of one world,
/// identified by the world's identity. Built once by the caller that holds
/// the real borrow, then copied freely to every fetch that needs it.
#[derive(Clone, Copy)]
pub enum SemiSafeCell {
    /// Built from a shared borrow: grants only the shared view.
    Ref(u64),
    /// Built from an exclusive borrow: the sole view in existence, so it
    /// grants the exclusive view too.
    Mut(u64),
}

impl SemiSafeCell {
    /// The identity of the world this token views.
    pub open spec fn world_id(self) -> u64 {
        match self {
            SemiSafeCell::Ref(id) => id,
            SemiSafeCell::Mut(id) => id,
        }
    }

    /// True of tokens built from an exclusive borrow; only those grant the
    /// exclusive view.
    pub open spec fn is_mut(self) -> bool {
        self is Mut
    }

    /// What [`SemiSafeCell::as_mut`] returns, as a spec-level function.
    pub open spec fn as_mut_spec(self) -> Option<u64> {
        if self.is_mut() {
            Some(self.world_id())
        } else {
            None
        }
    }

    /// Returns a token viewing `world`, from a shared borrow.
    pub fn from_ref(world: &World) -> (cell: SemiSafeCell)
        ensures
            cell == SemiSafeCell::Ref(world@.id),
            !cell.is_mut(),
            cell.world_id() == world@.id,
    {
        SemiSafeCell::Ref(world.id())
    }

    /// Returns a token viewing `world`, from an exclusive borrow. Exclusive
    /// access by construction cannot alias, so everything the token grants
    /// is sound.
    pub fn from_mut(world: &mut World) -> (cell: SemiSafeCell)
        ensures
            *final(world) == *old(world),
            cell == SemiSafeCell::Mut(old(world)@.id),
            cell.is_mut(),
            cell.world_id() == old(world)@.id,
    {
        SemiSafeCell::Mut(world.id())
    }

    /// The shared view: the identity of the world this token may read.
    /// Granted by every token.
    pub fn as_ref(&self) -> (id: u64)
        ensures
            id == self.world_id(),
    {
        match self {
            SemiSafeCell::Ref(id) => *id,
            SemiSafeCell::Mut(id) => *id,
        }
    }

    /// The exclusive view. A token built from a shared borrow is refused
    /// every time: handing out an exclusive view over a shared borrow would
    /// be unsound, so the request fails rather than silently degrading to
    /// the shared view.
    pub fn as_mut(&self) -> (id: Option<u64>)
        ensures
            id == if self.is_mut() {
                Some(self.world_id())
            } else {
                None::<u64>
            },
    {
        match self {
            SemiSafeCell::Ref(_) => None,
            SemiSafeCell::Mut(id) => Some(*id),
        }
    }
}

/// A token built by [`SemiSafeCell::from_ref`] is deterministically refused
/// the exclusive view: it is a `Ref` token, and only `Mut` tokens ever grant
/// exclusivity, so no sequence of copies or calls can turn the one into the
/// other.
pub proof fn lemma_shared_token_never_exclusive(cell: SemiSafeCell)
    requires
        cell is Ref,
    ensures
        !cell.is_mut(),
        cell.as_mut_spec() is None,
{
}

} // verus!
