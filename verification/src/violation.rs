//! What the write side reports when it finds the protocol broken.

use crate::side::Side;
use vstd::prelude::*;

verus! {

/// The two ways of locking a slot.
#[derive(Clone, Copy, Debug, PartialEq, Eq, Structural)]
pub enum Access {
    /// Shared with other readers.
    Shared,
    /// Exclusive, for writing.
    Exclusive,
}

/// A breach of the assumptions the buffer is built on, found by an operation
/// of the write side. None can be recovered from at this level: the caller is
/// expected to stop the task that ran into it.
#[derive(Clone, Copy, Debug, PartialEq, Eq, Structural)]
pub enum Violation {
    /// Write access was asked for while `slot`, the write slot, was locked:
    /// a write handle is still outstanding, so a second writer is at work.
    WriterContention { slot: Side },
    /// The resynchronisation that precedes a write could not lock `slot` in
    /// the way `access` says: a handle of an earlier generation is still
    /// alive, so the writer has interrupted a reader.
    SyncContention { slot: Side, access: Access },
}

impl Violation {
    /// The text of the diagnostic for this violation.
    pub open spec fn diagnostic(self) -> Seq<char> {
        match self {
            Violation::WriterContention { slot: Side::Left } => "LRBuffer write1"@,
            Violation::WriterContention { slot: Side::Right } => "LRBuffer write2"@,
            Violation::SyncContention { slot: Side::Right, access: Access::Shared } => "LRBuffer sync1"@,
            Violation::SyncContention { slot: Side::Left, access: Access::Exclusive } => "LRBuffer sync2"@,
            Violation::SyncContention { slot: Side::Left, access: Access::Shared } => "LRBuffer sync3"@,
            Violation::SyncContention { slot: Side::Right, access: Access::Exclusive } => "LRBuffer sync4"@,
        }
    }

    /// The diagnostic to abort with. It names the operation and, by its
    /// number, the slot and the step that failed.
    pub fn message(&self) -> (text: &'static str)
        ensures
            text@ == self.diagnostic(),
    {
        match self {
            Violation::WriterContention { slot: Side::Left } => "LRBuffer write1",
            Violation::WriterContention { slot: Side::Right } => "LRBuffer write2",
            Violation::SyncContention { slot: Side::Right, access: Access::Shared } => "LRBuffer sync1",
            Violation::SyncContention { slot: Side::Left, access: Access::Exclusive } => "LRBuffer sync2",
            Violation::SyncContention { slot: Side::Left, access: Access::Shared } => "LRBuffer sync3",
            Violation::SyncContention { slot: Side::Right, access: Access::Exclusive } => "LRBuffer sync4",
        }
    }
}

/// What a request for write access comes to, given what the attempt to lock
/// `slot` exclusively returned: the guard if there is one, and otherwise the
/// report of a second writer on that slot.
pub open spec fn writer_outcome<G>(slot: Side, attempt: Option<G>) -> Result<G, Violation> {
    match attempt {
        Some(guard) => Ok(guard),
        None => Err(Violation::WriterContention { slot }),
    }
}

/// What one step of the resynchronisation comes to, given what the attempt to
/// lock `slot` in the way `access` returned: the guard if there is one, and
/// otherwise the report of that step's failure.
pub open spec fn sync_outcome<G>(slot: Side, access: Access, attempt: Option<G>) -> Result<
    G,
    Violation,
> {
    match attempt {
        Some(guard) => Ok(guard),
        None => Err(Violation::SyncContention { slot, access }),
    }
}

/// Settles a request for write access on what the lock of `slot` answered.
pub fn writer_access<G>(slot: Side, attempt: Option<G>) -> (outcome: Result<G, Violation>)
    ensures
        outcome == writer_outcome(slot, attempt),
{
    match attempt {
        Some(guard) => Ok(guard),
        None => Err(Violation::WriterContention { slot }),
    }
}

/// Settles one step of the resynchronisation on what the lock of `slot`
/// answered.
pub fn sync_access<G>(slot: Side, access: Access, attempt: Option<G>) -> (outcome: Result<
    G,
    Violation,
>)
    ensures
        outcome == sync_outcome(slot, access, attempt),
{
    match attempt {
        Some(guard) => Ok(guard),
        None => Err(Violation::SyncContention { slot, access }),
    }
}

} // verus!
