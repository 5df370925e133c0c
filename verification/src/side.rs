//! The two slots, and how the direction flag assigns them their roles.

use vstd::prelude::*;

verus! {

/// One of the two storage slots of a buffer.
#[derive(Clone, Copy, Debug, PartialEq, Eq, Structural)]
pub enum Side {
    Left,
    Right,
}

impl Side {
    /// The slot that is not `self`.
    pub open spec fn opposite(self) -> Side {
        match self {
            Side::Left => Side::Right,
            Side::Right => Side::Left,
        }
    }

    /// The slot that is not `self`.
    #[verifier::when_used_as_spec(opposite)]
    pub fn other(self) -> (side: Side)
        ensures
            side == self.opposite(),
    {
        match self {
            Side::Left => Side::Right,
            Side::Right => Side::Left,
        }
    }
}

/// The slot that readers use while the direction flag holds `direction`:
/// the left one while it is `false`, the right one while it is `true`.
pub open spec fn reading_side(direction: bool) -> Side {
    if direction {
        Side::Right
    } else {
        Side::Left
    }
}

/// The slot that the writer uses while the direction flag holds `direction`:
/// always the one that readers do not use.
pub open spec fn writing_side(direction: bool) -> Side {
    reading_side(direction).opposite()
}

/// The slot a reader ends up on under `direction`: the read slot, or the
/// other one if the read slot refused the reader and it fell back.
pub open spec fn reader_slot(direction: bool, fell_back: bool) -> Side {
    if fell_back {
        writing_side(direction)
    } else {
        reading_side(direction)
    }
}

/// The slot to read from under `direction`.
pub fn read_side(direction: bool) -> (side: Side)
    ensures
        side == reading_side(direction),
{
    if direction {
        Side::Right
    } else {
        Side::Left
    }
}

/// The slot to write to under `direction`.
pub fn write_side(direction: bool) -> (side: Side)
    ensures
        side == writing_side(direction),
{
    if direction {
        Side::Left
    } else {
        Side::Right
    }
}

/// The value of the direction flag after a publish that found it at `direction`.
pub fn flipped(direction: bool) -> (next: bool)
    ensures
        next == !direction,
{
    match direction {
        true => false,
        false => true,
    }
}

/// Under every direction each slot has exactly one of the two roles: it is
/// the read slot or the write slot, and never both.
pub proof fn lemma_each_slot_has_one_role(direction: bool, side: Side)
    ensures
        (side == reading_side(direction)) != (side == writing_side(direction)),
{
}

/// Flipping the direction swaps the roles of the two slots, and flipping it
/// twice restores them.
pub proof fn lemma_flip_swaps_roles(direction: bool)
    ensures
        reading_side(!direction) == writing_side(direction),
        writing_side(!direction) == reading_side(direction),
        reading_side(!!direction) == reading_side(direction),
{
}

/// A publish hands the slot that was written to the readers: once the
/// direction is flipped, a reader that is granted the read slot stands on the
/// slot the writer used before the flip. A reader that has to fall back stands
/// on the slot that readers used before it.
pub proof fn lemma_flip_sends_readers_to_the_written_slot(direction: bool)
    ensures
        reader_slot(!direction, false) == writing_side(direction),
        reader_slot(!direction, true) == reading_side(direction),
{
}

} // verus!
