//! A sequential model of the buffer, and the laws the protocol obeys in it.
//!
//! The buffer itself changes behind shared references, under locks whose state
//! no contract of [`crate::buffer`] can mention. What its operations do to the
//! two slots and the two flags is therefore written down here once more, as
//! functions on a plain value in which the locks are counters, and the
//! guarantees of the design are proved of that value.
//!
//! The model takes every call as one step. This is the buffer as a single
//! thread drives it, and as a reader finds it that pre-empts the writer
//! between two of the writer's calls. A publish is made of two smaller steps,
//! the release of the guard and the flip of the direction, so that what a
//! reader finds between them, and what it would find had they been taken in
//! the wrong order, can be stated too.
//!
//! The model is defined by the functions the buffer calls to decide: the
//! meaning of the direction flag ([`reading_side`], [`writing_side`],
//! [`reader_slot`]) and what follows from the answer of a lock or a flag
//! ([`reader_step`], [`write_step`], [`writer_outcome`], [`sync_outcome`]).
//! [`crate::replica`] holds it in executable form.

use crate::side::{reader_slot, reading_side, writing_side, Side};
use crate::step::{reader_step, write_step};
use crate::violation::{sync_outcome, writer_outcome, Access, Violation};
use vstd::prelude::*;

verus! {

/// One slot: the value it holds and who holds its lock.
pub struct SlotModel<T> {
    /// The value stored in the slot.
    pub value: T,
    /// How many read guards of this slot are alive.
    pub readers: nat,
    /// Whether a write guard of this slot is alive.
    pub writer: bool,
}

impl<T> SlotModel<T> {
    /// An unlocked slot that holds `value`.
    pub open spec fn idle(value: T) -> Self {
        SlotModel { value, readers: 0, writer: false }
    }

    /// What the lock guarantees: a writer is alone.
    pub open spec fn exclusive(self) -> bool {
        self.writer ==> self.readers == 0
    }

    /// Whether a request for shared access is granted: no writer holds the slot.
    pub open spec fn admits_reader(self) -> bool {
        !self.writer
    }

    /// Whether a request for exclusive access is granted: nobody holds the slot.
    pub open spec fn admits_writer(self) -> bool {
        !self.writer && self.readers == 0
    }

    /// The slot with one more read guard alive.
    pub open spec fn lock_shared(self) -> Self {
        SlotModel { readers: self.readers + 1, ..self }
    }

    /// The slot after one read guard was dropped.
    pub open spec fn unlock_shared(self) -> Self {
        SlotModel { readers: (self.readers - 1) as nat, ..self }
    }

    /// The slot with its write guard alive.
    pub open spec fn lock_exclusive(self) -> Self {
        SlotModel { writer: true, ..self }
    }

    /// The slot after its write guard was dropped.
    pub open spec fn unlock_exclusive(self) -> Self {
        SlotModel { writer: false, ..self }
    }

    /// The slot after `value` was stored in it.
    pub open spec fn holding(self, value: T) -> Self {
        SlotModel { value, ..self }
    }
}

/// The whole buffer: both slots and both flags.
pub struct BufferModel<T> {
    pub left: SlotModel<T>,
    pub right: SlotModel<T>,
    /// The direction flag: which slot readers use.
    pub direction: bool,
    /// The published flag: set by a publish, cleared when the write side is
    /// next acquired.
    pub published: bool,
}

/// A guard handed out by the model: the buffer after the acquisition, and the
/// slot the guard belongs to.
pub struct Grant<T> {
    pub state: BufferModel<T>,
    pub side: Side,
}

impl<T> Grant<T> {
    /// The value the guard shows when it is handed out.
    pub open spec fn value(self) -> T {
        self.state.slot(self.side).value
    }
}

impl<T> BufferModel<T> {
    /// The buffer as constructed: `value` in both slots, nothing locked,
    /// readers on the left, nothing published.
    pub open spec fn init(value: T) -> Self {
        BufferModel {
            left: SlotModel::idle(value),
            right: SlotModel::idle(value),
            direction: false,
            published: false,
        }
    }

    /// The slot on `side`.
    pub open spec fn slot(self, side: Side) -> SlotModel<T> {
        match side {
            Side::Left => self.left,
            Side::Right => self.right,
        }
    }

    /// The buffer with `slot` in place of the slot on `side`.
    pub open spec fn with_slot(self, side: Side, slot: SlotModel<T>) -> Self {
        match side {
            Side::Left => BufferModel { left: slot, ..self },
            Side::Right => BufferModel { right: slot, ..self },
        }
    }

    /// The slot readers are sent to.
    pub open spec fn read_slot(self) -> Side {
        reading_side(self.direction)
    }

    /// The slot the writer is sent to.
    pub open spec fn write_slot(self) -> Side {
        writing_side(self.direction)
    }

    /// The published value: what the read slot holds.
    pub open spec fn published_value(self) -> T {
        self.slot(self.read_slot()).value
    }

    /// What holds of the buffer as long as it is used through `read`, `write`,
    /// `write_without_sync` and `publish` alone: each lock keeps a writer
    /// alone, the read slot is never locked for writing, and while a write
    /// guard is alive no publish is pending.
    pub open spec fn coherent(self) -> bool {
        &&& self.left.exclusive()
        &&& self.right.exclusive()
        &&& !self.slot(self.read_slot()).writer
        &&& self.slot(self.write_slot()).writer ==> !self.published
    }

    /// What the lock of the slot on `side` answers to one request for shared
    /// access: the buffer with one more reader on that slot, or `None` while
    /// a writer holds it.
    pub open spec fn try_shared(self, side: Side) -> Option<Self> {
        if self.slot(side).admits_reader() {
            Some(self.with_slot(side, self.slot(side).lock_shared()))
        } else {
            None
        }
    }

    /// What the lock of the slot on `side` answers to one request for
    /// exclusive access: the buffer with that slot locked for writing, or
    /// `None` while anyone holds it.
    pub open spec fn try_exclusive(self, side: Side) -> Option<Self> {
        if self.slot(side).admits_writer() {
            Some(self.with_slot(side, self.slot(side).lock_exclusive()))
        } else {
            None
        }
    }

    /// `read` under the direction it has loaded: the read slot is asked, and
    /// [`reader_step`] settles its answer. The handle stands on the slot that
    /// [`reader_slot`] names. `None` means that both slots are locked for
    /// writing.
    pub open spec fn read_under(self, direction: bool) -> Option<Grant<T>> {
        match reader_step(direction, self.try_shared(reading_side(direction))) {
            Ok(state) => Some(Grant { state, side: reader_slot(direction, false) }),
            Err(other) => match self.try_shared(other) {
                Some(state) => Some(Grant { state, side: reader_slot(direction, true) }),
                None => None,
            },
        }
    }

    /// `read`.
    pub open spec fn read(self) -> Option<Grant<T>> {
        self.read_under(self.direction)
    }

    /// Dropping a read handle of the slot on `side`.
    pub open spec fn end_read(self, side: Side) -> Self {
        self.with_slot(side, self.slot(side).unlock_shared())
    }

    /// One attempt to lock the slot that `direction` assigns to the writer,
    /// settled by [`writer_outcome`].
    pub open spec fn lock_write_slot(self, direction: bool) -> Result<Grant<T>, Violation> {
        let side = writing_side(direction);
        match writer_outcome(side, self.try_exclusive(side)) {
            Ok(state) => Ok(Grant { state, side }),
            Err(violation) => Err(violation),
        }
    }

    /// One attempt to lock the write slot.
    pub open spec fn acquire(self) -> Result<Grant<T>, Violation> {
        self.lock_write_slot(self.direction)
    }

    /// `write_without_sync`: a write handle on the write slot as it stands,
    /// and the published flag cleared; or the report of a second writer.
    pub open spec fn write_without_sync(self) -> Result<Grant<T>, Violation> {
        match self.acquire() {
            Ok(grant) => Ok(
                Grant { state: BufferModel { published: false, ..grant.state }, side: grant.side },
            ),
            Err(violation) => Err(violation),
        }
    }

    /// The copy from the slot that `direction` assigns to readers into the
    /// slot that it assigns to the writer: the read slot is locked shared,
    /// then the write slot exclusively, each attempt settled by
    /// [`sync_outcome`]; the value is stored, and the two locks are given
    /// back.
    pub open spec fn copy_across(self, direction: bool) -> Result<Self, Violation> {
        let source = reading_side(direction);
        let target = writing_side(direction);
        match sync_outcome(source, Access::Shared, self.try_shared(source)) {
            Err(violation) => Err(violation),
            Ok(shared) => match sync_outcome(
                target,
                Access::Exclusive,
                shared.try_exclusive(target),
            ) {
                Err(violation) => Err(violation),
                Ok(both) => Ok(
                    both.store(target, both.slot(source).value).abandon(target).end_read(source),
                ),
            },
        }
    }

    /// The resynchronisation: the published value copied into the write slot,
    /// or the report of the lock that could not be had.
    pub open spec fn sync(self) -> Result<Self, Violation> {
        self.copy_across(self.direction)
    }

    /// `write` under the published flag it has loaded: the resynchronisation
    /// runs if the flag is set, and [`write_step`] settles how the writer goes
    /// on: with the violation, or, the flag cleared if the slot was
    /// resynchronised, with one attempt to lock the write slot.
    pub open spec fn write_under(self, published: bool) -> Result<Grant<T>, Violation> {
        let resync = if published {
            Some(self.sync())
        } else {
            None
        };
        match write_step(resync) {
            Err(violation) => Err(violation),
            Ok(None) => self.acquire(),
            Ok(Some(synced)) => BufferModel { published: false, ..synced }.acquire(),
        }
    }

    /// `write`.
    pub open spec fn write(self) -> Result<Grant<T>, Violation> {
        self.write_under(self.published)
    }

    /// Storing `value` through the write guard of the slot on `side`.
    pub open spec fn store(self, side: Side, value: T) -> Self {
        self.with_slot(side, self.slot(side).holding(value))
    }

    /// Dropping the write guard of the slot on `side` without publishing.
    pub open spec fn abandon(self, side: Side) -> Self {
        self.with_slot(side, self.slot(side).unlock_exclusive())
    }

    /// Flipping the direction and setting the published flag, with no lock
    /// touched.
    pub open spec fn flip(self) -> Self {
        BufferModel { direction: !self.direction, published: true, ..self }
    }

    /// `publish` with the write guard of the slot on `side`: the guard is
    /// dropped, then the direction flipped.
    pub open spec fn publish(self, side: Side) -> Self {
        self.abandon(side).flip()
    }
}

/// One step of a run: a call of the buffer, or a use of a guard it handed out.
pub enum Step<T> {
    /// A call of `read`.
    Read,
    /// A read guard of the given slot is dropped.
    EndRead(Side),
    /// A call of `write`.
    Write,
    /// A call of `write_without_sync`.
    WriteWithoutSync,
    /// A value is stored through the write guard of the given slot.
    Store(Side, T),
    /// A call of `publish` with the write guard of the given slot.
    Publish(Side),
    /// The write guard of the given slot is dropped unpublished.
    Abandon(Side),
}

/// Whether `step` can be taken in `state`: a step that uses a guard needs
/// that guard to be alive. The calls that hand out guards can always be made.
pub open spec fn possible<T>(state: BufferModel<T>, step: Step<T>) -> bool {
    match step {
        Step::Read => state.read() is Some,
        Step::EndRead(side) => state.slot(side).readers > 0,
        Step::Write => true,
        Step::WriteWithoutSync => true,
        Step::Store(side, _) => state.slot(side).writer,
        Step::Publish(side) => state.slot(side).writer,
        Step::Abandon(side) => state.slot(side).writer,
    }
}

/// The buffer after `step`. A call that reports a violation leaves it as it was.
pub open spec fn after<T>(state: BufferModel<T>, step: Step<T>) -> BufferModel<T> {
    match step {
        Step::Read => match state.read() {
            Some(grant) => grant.state,
            None => state,
        },
        Step::EndRead(side) => state.end_read(side),
        Step::Write => match state.write() {
            Ok(grant) => grant.state,
            Err(_) => state,
        },
        Step::WriteWithoutSync => match state.write_without_sync() {
            Ok(grant) => grant.state,
            Err(_) => state,
        },
        Step::Store(side, value) => state.store(side, value),
        Step::Publish(side) => state.publish(side),
        Step::Abandon(side) => state.abandon(side),
    }
}

/// Whether the steps of `steps` can be taken one after the other from `state`.
pub open spec fn feasible<T>(state: BufferModel<T>, steps: Seq<Step<T>>) -> bool
    decreases steps.len(),
{
    steps.len() == 0 || (possible(state, steps[0]) && feasible(
        after(state, steps[0]),
        steps.subrange(1, steps.len() as int),
    ))
}

/// The buffer after the steps of `steps`, taken in order from `state`.
pub open spec fn run<T>(state: BufferModel<T>, steps: Seq<Step<T>>) -> BufferModel<T>
    decreases steps.len(),
{
    if steps.len() == 0 {
        state
    } else {
        run(after(state, steps[0]), steps.subrange(1, steps.len() as int))
    }
}

/// The model answers as the contracts of the buffer say, in every state:
/// a reader stands on the read slot of the direction it loaded unless that
/// slot refused it, a writer on the write slot; a refused writer is reported
/// as a second writer on that slot, a refused copy as the step that failed;
/// and without a pending publish `write` reports nothing but a second writer.
pub proof fn lemma_model_keeps_the_contracts<T>(
    state: BufferModel<T>,
    direction: bool,
    published: bool,
)
    ensures
        state.read_under(direction) matches Some(grant) ==> grant.side == reader_slot(
            direction,
            !state.slot(reading_side(direction)).admits_reader(),
        ),
        state.lock_write_slot(direction) matches Ok(grant) ==> grant.side == writing_side(
            direction,
        ),
        state.lock_write_slot(direction) matches Err(violation) ==> violation
            == (Violation::WriterContention { slot: writing_side(direction) }),
        state.copy_across(direction) matches Err(violation) ==> violation
            == (Violation::SyncContention { slot: reading_side(direction), access: Access::Shared })
            || violation == (Violation::SyncContention {
            slot: writing_side(direction),
            access: Access::Exclusive,
        }),
        !published ==> (state.write_under(published) matches Err(violation) ==> violation
            is WriterContention),
        state.write_under(published) matches Ok(grant) ==> grant.side == writing_side(
            state.direction,
        ),
        state.write_without_sync() matches Ok(grant) ==> grant.side == writing_side(
            state.direction,
        ),
{
}

/// A new buffer is coherent, and a reader finds the initial value in it.
pub proof fn lemma_new_buffer_is_coherent<T>(value: T)
    ensures
        BufferModel::init(value).coherent(),
        BufferModel::init(value).published_value() == value,
        BufferModel::init(value).read() matches Some(grant) && grant.value() == value,
{
}

/// Coherence is kept by every step that can be taken.
pub proof fn lemma_step_keeps_coherence<T>(state: BufferModel<T>, step: Step<T>)
    requires
        state.coherent(),
        possible(state, step),
    ensures
        after(state, step).coherent(),
{
}

/// Coherence is kept by every run: whatever sequence of reads, writes, edits
/// and publishes a new buffer goes through, it stays coherent.
pub proof fn lemma_run_keeps_coherence<T>(state: BufferModel<T>, steps: Seq<Step<T>>)
    requires
        state.coherent(),
        feasible(state, steps),
    ensures
        run(state, steps).coherent(),
    decreases steps.len(),
{
    if steps.len() > 0 {
        lemma_step_keeps_coherence(state, steps[0]);
        lemma_run_keeps_coherence(after(state, steps[0]), steps.subrange(1, steps.len() as int));
    }
}

/// Every state that a new buffer reaches by steps that can be taken is
/// coherent.
pub proof fn lemma_reachable_states_are_coherent<T>(value: T, steps: Seq<Step<T>>)
    requires
        feasible(BufferModel::init(value), steps),
    ensures
        run(BufferModel::init(value), steps).coherent(),
{
    lemma_run_keeps_coherence(BufferModel::init(value), steps);
}

/// In a coherent buffer at most one write guard is alive, and it is a guard
/// of the write slot.
pub proof fn lemma_single_writer<T>(state: BufferModel<T>, side: Side)
    requires
        state.coherent(),
        state.slot(side).writer,
    ensures
        side == state.write_slot(),
        !state.slot(side.opposite()).writer,
{
}

/// In a coherent buffer `read` never waits: it is granted the read slot and
/// shows the published value, whether or not a write is in progress.
pub proof fn lemma_read_sees_published_value<T>(state: BufferModel<T>)
    requires
        state.coherent(),
    ensures
        state.read() matches Some(grant) && grant.side == state.read_slot() && grant.value()
            == state.published_value(),
{
}

/// The published value changes by `publish` alone. In particular nothing the
/// writer stores through its guard, and no resynchronisation, is seen by a
/// reader before the publish.
pub proof fn lemma_only_publish_changes_published_value<T>(state: BufferModel<T>, step: Step<T>)
    requires
        state.coherent(),
        possible(state, step),
        !(step is Publish),
    ensures
        after(state, step).published_value() == state.published_value(),
{
}

/// A read after a publish returns the value that was written: once `value`
/// is stored through the write guard and the guard is published, `value` is
/// the published value, and the next `read` shows it.
pub proof fn lemma_read_after_publish_sees_written_value<T>(
    state: BufferModel<T>,
    side: Side,
    value: T,
)
    requires
        state.coherent(),
        state.slot(side).writer,
    ensures
        state.store(side, value).publish(side).published_value() == value,
        state.store(side, value).publish(side).read() matches Some(grant) && grant.side == side
            && grant.value() == value,
{
}

/// A read during a write returns the value of the last publish: whatever the
/// writer has stored through its guard so far, `read` shows what it showed
/// before the guard was handed out.
pub proof fn lemma_read_during_write_sees_published_value<T>(
    state: BufferModel<T>,
    side: Side,
    value: T,
)
    requires
        state.coherent(),
        state.slot(side).writer,
    ensures
        state.store(side, value).read() matches Some(grant) && grant.value()
            == state.published_value(),
{
}

/// While a write guard is alive, a further request for write access is
/// refused as a second writer, by `write` and by `write_without_sync` alike.
pub proof fn lemma_second_writer_is_refused<T>(state: BufferModel<T>, side: Side)
    requires
        state.coherent(),
        state.slot(side).writer,
    ensures
        state.write() == Err::<Grant<T>, Violation>(Violation::WriterContention { slot: side }),
        state.write_without_sync() == Err::<Grant<T>, Violation>(
            Violation::WriterContention { slot: side },
        ),
{
}

/// When `write` and `write_without_sync` succeed in a coherent buffer, and
/// what they report when they do not: both need the write slot free of
/// guards. If it is not, a pending publish makes `write` report the failed
/// resynchronisation; in every other case the report is a second writer.
pub proof fn lemma_write_succeeds_on_free_slot<T>(state: BufferModel<T>)
    requires
        state.coherent(),
    ensures
        state.write() is Ok <==> state.slot(state.write_slot()).admits_writer(),
        state.write_without_sync() is Ok <==> state.slot(state.write_slot()).admits_writer(),
        !state.slot(state.write_slot()).admits_writer() ==> state.write_without_sync() == Err::<
            Grant<T>,
            Violation,
        >(Violation::WriterContention { slot: state.write_slot() }),
        !state.slot(state.write_slot()).admits_writer() && !state.published ==> state.write()
            == Err::<Grant<T>, Violation>(Violation::WriterContention { slot: state.write_slot() }),
        !state.slot(state.write_slot()).admits_writer() && state.published ==> state.write()
            == Err::<Grant<T>, Violation>(
            Violation::SyncContention { slot: state.write_slot(), access: Access::Exclusive },
        ),
{
}

/// The first `write` after a publish starts from the published value: its
/// guard belongs to the write slot and shows what readers see, nothing else
/// in the buffer has changed a value, and the published flag is cleared.
pub proof fn lemma_write_after_publish_starts_from_published_value<T>(state: BufferModel<T>)
    requires
        state.coherent(),
        state.published,
        state.write() is Ok,
    ensures
        state.write()->Ok_0.side == state.write_slot(),
        state.write()->Ok_0.value() == state.published_value(),
        state.write()->Ok_0.state.published_value() == state.published_value(),
        !state.write()->Ok_0.state.published,
{
}

/// A `write` with no publish pending, and every `write_without_sync`, hand
/// out the write slot as it stands: the guard shows what the slot held.
pub proof fn lemma_write_without_sync_keeps_slot_content<T>(state: BufferModel<T>)
    requires
        state.coherent(),
    ensures
        state.write_without_sync() matches Ok(grant) ==> grant.side == state.write_slot()
            && grant.value() == state.slot(state.write_slot()).value && !grant.state.published,
        !state.published ==> state.write() == state.write_without_sync(),
{
}

/// From publish to the next write: after the value written through a guard
/// is published, the next `write` is granted unless a reader still holds the
/// slot that readers used before, and its guard starts from that value.
pub proof fn lemma_next_write_starts_from_last_publish<T>(state: BufferModel<T>, side: Side)
    requires
        state.coherent(),
        state.slot(side).writer,
    ensures
        state.publish(side).write() is Ok <==> state.slot(state.read_slot()).readers == 0,
        state.publish(side).write() matches Ok(grant) ==> grant.value() == state.slot(side).value,
{
}

/// What a read guard shows does not change while the guard is alive: no step
/// alters the value of a slot that a reader holds.
pub proof fn lemma_guarded_value_is_stable<T>(state: BufferModel<T>, step: Step<T>, side: Side)
    requires
        state.coherent(),
        possible(state, step),
        state.slot(side).readers > 0,
    ensures
        after(state, step).slot(side).value == state.slot(side).value,
{
}

/// If the direction is flipped while the write guard is still alive, `read`
/// finds the new read slot locked, takes the other slot and shows the value
/// published before the flip.
pub proof fn lemma_read_falls_back_to_previous_value<T>(state: BufferModel<T>, side: Side)
    requires
        state.coherent(),
        state.slot(side).writer,
    ensures
        state.flip().read() matches Some(grant) && grant.side == state.read_slot() && grant.value()
            == state.published_value(),
{
}

/// After such a flip a `write` fails in its resynchronisation: the published
/// flag is set, and the slot it would copy from is the one still locked for
/// writing.
pub proof fn lemma_write_after_bare_flip_fails_sync<T>(state: BufferModel<T>, side: Side)
    requires
        state.coherent(),
        state.slot(side).writer,
    ensures
        state.flip().write() == Err::<Grant<T>, Violation>(
            Violation::SyncContention { slot: side, access: Access::Shared },
        ),
{
}

/// A publish uses up the write guard: after it no write guard is alive, so
/// neither a second publish nor an edit can follow before the write side is
/// acquired again.
pub proof fn lemma_publish_consumes_the_guard<T>(state: BufferModel<T>, side: Side, next: Step<T>)
    requires
        state.coherent(),
        state.slot(side).writer,
        next is Publish || next is Store || next is Abandon,
    ensures
        !possible(state.publish(side), next),
{
}

} // verus!
