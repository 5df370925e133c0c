//! The handles a buffer gives out: a lock guard, and a record of how it was
//! come by.

use crate::side::Side;
use crate::slot::{exclusive_mut, exclusive_ref, shared_ref};
use crate::step::{Copied, Refusal};
use core::ops::{Deref, DerefMut};
use spin::{RwLockReadGuard, RwLockWriteGuard};
use vstd::prelude::*;

verus! {

/// Shared access to the value of one slot, given up when the handle is
/// dropped.
#[verifier::reject_recursive_types(T)]
pub struct ReadHandle<'a, T> {
    guard: RwLockReadGuard<'a, T>,
    direction: bool,
    slot: Side,
    fell_back: bool,
}

impl<'a, T> ReadHandle<'a, T> {
    /// The direction flag as the reader found it.
    pub closed spec fn direction_of(&self) -> bool {
        self.direction
    }

    /// The slot whose lock granted this handle.
    pub closed spec fn slot_of(&self) -> Side {
        self.slot
    }

    /// Whether the read slot had refused before this handle was granted.
    pub closed spec fn fell_back_of(&self) -> bool {
        self.fell_back
    }

    /// Records that `guard` was granted by the lock of `slot` to a reader who
    /// had found the direction flag at `direction`: at the first attempt, or
    /// after the refusal `refusal` of the read slot.
    pub(crate) fn new(
        guard: RwLockReadGuard<'a, T>,
        direction: bool,
        slot: Side,
        refusal: Option<Refusal>,
    ) -> (handle: Self)
        ensures
            handle.direction() == direction,
            handle.slot() == slot,
            handle.fell_back() == refusal.is_some(),
    {
        ReadHandle { guard, direction, slot, fell_back: refusal.is_some() }
    }

    /// The direction flag as the reader found it.
    #[verifier::when_used_as_spec(direction_of)]
    pub fn direction(&self) -> (direction: bool)
        ensures
            direction == self.direction(),
    {
        self.direction
    }

    /// The slot whose lock granted this handle.
    #[verifier::when_used_as_spec(slot_of)]
    pub fn slot(&self) -> (slot: Side)
        ensures
            slot == self.slot(),
    {
        self.slot
    }

    /// Whether the read slot had refused before this handle was granted: the
    /// handle then shows the value published before the last flip.
    #[verifier::when_used_as_spec(fell_back_of)]
    pub fn fell_back(&self) -> (fell_back: bool)
        ensures
            fell_back == self.fell_back(),
    {
        self.fell_back
    }
}

impl<'a, T> Deref for ReadHandle<'a, T> {
    type Target = T;

    fn deref(&self) -> &T {
        shared_ref(&self.guard)
    }
}

/// Exclusive access to the value of one slot, given up when the handle is
/// dropped or published.
#[verifier::reject_recursive_types(T)]
pub struct WriteHandle<'a, T> {
    guard: RwLockWriteGuard<'a, T>,
    direction: bool,
    slot: Side,
    synced: bool,
}

impl<'a, T> WriteHandle<'a, T> {
    /// The direction flag as the writer found it.
    pub closed spec fn direction_of(&self) -> bool {
        self.direction
    }

    /// The slot whose lock granted this handle.
    pub closed spec fn slot_of(&self) -> Side {
        self.slot
    }

    /// Whether the slot was resynchronised for this handle.
    pub closed spec fn synced_of(&self) -> bool {
        self.synced
    }

    /// Records that `guard` was granted by the lock of `slot` to a writer who
    /// had found the direction flag at `direction`, and, by `copied`, whether
    /// the slot had been resynchronised for it.
    pub(crate) fn new(
        guard: RwLockWriteGuard<'a, T>,
        direction: bool,
        slot: Side,
        copied: Option<Copied>,
    ) -> (handle: Self)
        ensures
            handle.direction() == direction,
            handle.slot() == slot,
            handle.synced() == copied.is_some(),
    {
        WriteHandle { guard, direction, slot, synced: copied.is_some() }
    }

    /// The direction flag as the writer found it.
    #[verifier::when_used_as_spec(direction_of)]
    pub fn direction(&self) -> (direction: bool)
        ensures
            direction == self.direction(),
    {
        self.direction
    }

    /// The slot whose lock granted this handle.
    #[verifier::when_used_as_spec(slot_of)]
    pub fn slot(&self) -> (slot: Side)
        ensures
            slot == self.slot(),
    {
        self.slot
    }

    /// Whether the published value was copied into the slot just before this
    /// handle was granted. If not, the handle shows the slot as the last
    /// writer on it left it.
    #[verifier::when_used_as_spec(synced_of)]
    pub fn synced(&self) -> (synced: bool)
        ensures
            synced == self.synced(),
    {
        self.synced
    }
}

impl<'a, T> Deref for WriteHandle<'a, T> {
    type Target = T;

    fn deref(&self) -> &T {
        exclusive_ref(&self.guard)
    }
}

impl<'a, T> DerefMut for WriteHandle<'a, T> {
    fn deref_mut(&mut self) -> &mut T {
        exclusive_mut(&mut self.guard)
    }
}

} // verus!
