//! The steps an operation decides on what a lock or a flag has answered.
//!
//! Whether a lock grants and what a flag holds is for the other holders of the
//! buffer to say. What the library does with the answer is decided here, in
//! functions that take the answer as an argument; the buffer calls them, and
//! the model of [`crate::protocol`] is defined by them.

use crate::side::{write_side, writing_side, Side};
use crate::violation::Violation;
use vstd::prelude::*;

verus! {

/// What a reader does with the answer of the read slot under `direction`: it
/// keeps the guard if it was granted one, and otherwise turns to the other
/// slot, the one `direction` assigns to the writer.
pub open spec fn reader_step<G>(direction: bool, attempt: Option<G>) -> Result<G, Side> {
    match attempt {
        Some(guard) => Ok(guard),
        None => Err(writing_side(direction)),
    }
}

/// The refusal of the read slot: what [`first_answer`] hands out when it was
/// given no guard. It names the slot to ask next, and only with it can a
/// handle be marked as one that fell back.
#[derive(Debug)]
pub struct Refusal {
    next: Side,
}

impl Refusal {
    /// The slot to ask next.
    pub closed spec fn next_of(&self) -> Side {
        self.next
    }

    /// The slot to ask next.
    #[verifier::when_used_as_spec(next_of)]
    pub fn next(&self) -> (next: Side)
        ensures
            next == self.next(),
    {
        self.next
    }
}

/// Settles a reader's first attempt as [`reader_step`] says: `Ok` with the
/// guard that was granted, or `Err` with the refusal, which names the slot to
/// ask next.
pub fn first_answer<G>(direction: bool, attempt: Option<G>) -> (step: Result<G, Refusal>)
    ensures
        match step {
            Ok(guard) => reader_step(direction, attempt) == Ok::<G, Side>(guard),
            Err(refusal) => reader_step(direction, attempt) == Err::<G, Side>(refusal.next()),
        },
{
    match attempt {
        Some(guard) => Ok(guard),
        None => Err(Refusal { next: write_side(direction) }),
    }
}

/// What `write` does once the resynchronisation, if one was due, has
/// answered. `resync` is `None` if no publish was pending and nothing was
/// copied. The writer aborts with the violation of a failed resynchronisation;
/// otherwise it goes on to acquire the write slot, with `Some` if the slot was
/// resynchronised, in which case the published flag is to be cleared first,
/// and with `None` if it was left as it stood.
pub open spec fn write_step<S>(resync: Option<Result<S, Violation>>) -> Result<
    Option<S>,
    Violation,
> {
    match resync {
        None => Ok(None),
        Some(Ok(synced)) => Ok(Some(synced)),
        Some(Err(violation)) => Err(violation),
    }
}

/// Settles how `write` goes on after the resynchronisation, if one was due.
pub fn after_resync<S>(resync: Option<Result<S, Violation>>) -> (step: Result<
    Option<S>,
    Violation,
>)
    ensures
        step == write_step(resync),
{
    match resync {
        None => Ok(None),
        Some(Ok(synced)) => Ok(Some(synced)),
        Some(Err(violation)) => Err(violation),
    }
}

/// The mark of a finished copy: what [`copy_value`] hands out. Only with it
/// can a resynchronisation report success and a handle be marked as
/// resynchronised.
#[derive(Debug)]
pub struct Copied {
    sealed: (),
}

/// Copies the value of `source` into `target`.
pub fn copy_value<V: Copy>(source: &V, target: &mut V) -> (copied: Copied)
    ensures
        *final(target) == *source,
{
    *target = *source;
    Copied { sealed: () }
}

} // verus!
