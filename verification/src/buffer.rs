//! The buffer: two locked slots, a direction flag and a published flag.
//!
//! Every operation works through a shared reference, on locks and flags that
//! other holders may change at any moment. Each operation therefore first
//! reads a flag and then works under the value it has read, in a function
//! that takes this value as an argument, and it settles every answer of a
//! lock by a function of [`crate::step`] or [`crate::violation`]. A handle
//! records the direction it was granted under, and the contracts say which
//! slot it stands on under that direction, whether the slot was
//! resynchronised for it and which violation a refusal is reported as. What a
//! handle shows cannot be stated here; [`crate::protocol::BufferModel`]
//! states it, by the same decisions.

use crate::handle::{ReadHandle, WriteHandle};
use crate::side::{flipped, read_side, reader_slot, reading_side, write_side, writing_side, Side};
use crate::step::{after_resync, copy_value, first_answer, Copied, Refusal};
use crate::violation::{sync_access, writer_access, Access, Violation};
use core::ops::{Deref, DerefMut};
use core::sync::atomic::AtomicBool;
use core::sync::atomic::Ordering;
use spin::RwLock;
use vstd::prelude::*;

verus! {

/// A value kept twice, so that one writer can prepare the next version while
/// readers still look at the last published one.
///
/// `direction` says which slot readers use: `false` means that reading
/// happens on the left and writing on the right, `true` the reverse.
/// `has_been_published` is set by a publish and cleared when the write side is
/// next acquired.
#[verifier::reject_recursive_types(T)]
pub struct LeftRightBuffer<T> {
    left: RwLock<T>,
    right: RwLock<T>,
    direction: AtomicBool,
    has_been_published: AtomicBool,
}

impl<T: Copy> LeftRightBuffer<T> {
    /// A buffer whose two slots both hold `default`, so that a read before the
    /// first publish is defined. Readers start on the left slot; nothing has
    /// been published.
    pub fn new(default: T) -> LeftRightBuffer<T> {
        LeftRightBuffer {
            left: RwLock::new(default),
            right: RwLock::new(default),
            direction: AtomicBool::new(false),
            has_been_published: AtomicBool::new(false),
        }
    }

    /// The lock of the slot on `side`.
    fn slot(&self, side: Side) -> (lock: &RwLock<T>)
        ensures
            lock == match side {
                Side::Left => &self.left,
                Side::Right => &self.right,
            },
    {
        match side {
            Side::Left => &self.left,
            Side::Right => &self.right,
        }
    }

    /// Asks the lock of the slot on `side` once for shared access, for a
    /// reader who found the direction flag at `direction`. A handle that is
    /// granted records `direction` and `side`, and that it fell back if
    /// `refusal` holds the refusal of the read slot.
    fn try_shared(&self, direction: bool, side: Side, refusal: Option<Refusal>) -> (granted:
        Option<ReadHandle<'_, T>>)
        ensures
            granted matches Some(handle) ==> handle.direction() == direction && handle.slot()
                == side && handle.fell_back() == refusal.is_some(),
    {
        match self.slot(side).try_read() {
            Some(guard) => Some(ReadHandle::new(guard, direction, side, refusal)),
            None => None,
        }
    }

    /// Asks the lock of the slot on `side` once for exclusive access, for a
    /// writer who found the direction flag at `direction`. A handle that is
    /// granted records `direction` and `side`, and that the slot was
    /// resynchronised for it if `copied` holds the mark of the copy.
    fn try_exclusive(&self, direction: bool, side: Side, copied: Option<Copied>) -> (granted:
        Option<WriteHandle<'_, T>>)
        ensures
            granted matches Some(handle) ==> handle.direction() == direction && handle.slot()
                == side && handle.synced() == copied.is_some(),
    {
        match self.slot(side).try_write() {
            Some(guard) => Some(WriteHandle::new(guard, direction, side, copied)),
            None => None,
        }
    }

    /// Shared access to the published value. Never fails and never waits.
    ///
    /// The read slot is asked first. Should it be locked for writing, which
    /// happens only if the direction was flipped while a write handle was
    /// still alive, the other slot is asked, which holds the value published
    /// before. `None` means that this slot is locked for writing too; the
    /// caller may ask again.
    ///
    /// The handle stands on the slot that the direction it records assigns to
    /// readers, unless it records that this slot refused.
    pub fn read(&self) -> (granted: Option<ReadHandle<'_, T>>)
        ensures
            granted matches Some(handle) ==> handle.slot() == reader_slot(
                handle.direction(),
                handle.fell_back(),
            ),
    {
        self.read_under(self.direction.load(Ordering::Relaxed))
    }

    /// `read`, once the direction is known. What the read slot answers is
    /// settled by [`first_answer`]: its guard is kept, its refusal leads to
    /// one attempt on the other slot.
    fn read_under(&self, direction: bool) -> (granted: Option<ReadHandle<'_, T>>)
        ensures
            granted matches Some(handle) ==> handle.direction() == direction && handle.slot()
                == reader_slot(direction, handle.fell_back()),
    {
        match first_answer(direction, self.try_shared(direction, read_side(direction), None)) {
            Ok(handle) => Some(handle),
            Err(refusal) => self.try_shared(direction, refusal.next(), Some(refusal)),
        }
    }

    /// Exclusive access to the write slot, for editing the published value in
    /// place.
    ///
    /// The first call after a publish copies the published value into the
    /// write slot before handing it out, so the handle starts from that
    /// value; the handle records whether this was done.
    ///
    /// Only the task of lowest priority may call this. An error means that
    /// this rule was broken; the caller is expected to abort.
    ///
    /// The handle stands on the slot that the direction it records assigns to
    /// the writer.
    pub fn write(&self) -> (outcome: Result<WriteHandle<'_, T>, Violation>)
        ensures
            outcome matches Ok(handle) ==> handle.slot() == writing_side(handle.direction()),
    {
        self.write_under(self.has_been_published.load(Ordering::Relaxed))
    }

    /// `write`, once the published flag is known. The resynchronisation runs
    /// if and only if `published` is set, and what it answers is settled by
    /// [`after_resync`]: a refusal is returned as it is; after a copy the
    /// flag is cleared; then the write slot is asked for. The handle is marked
    /// as resynchronised if and only if `published` is set, and without a
    /// pending publish the only refusal there can be is that of a second
    /// writer.
    fn write_under(&self, published: bool) -> (outcome: Result<WriteHandle<'_, T>, Violation>)
        ensures
            outcome matches Ok(handle) ==> handle.synced() == published && handle.slot()
                == writing_side(handle.direction()),
            !published ==> (outcome matches Err(violation) ==> violation is WriterContention),
    {
        let resync = if published {
            Some(self.sync())
        } else {
            None
        };
        match after_resync(resync) {
            Err(violation) => Err(violation),
            Ok(None) => self.acquire(None),
            Ok(Some(copied)) => {
                self.has_been_published.store(false, Ordering::Relaxed);
                self.acquire(Some(copied))
            },
        }
    }

    /// Exclusive access to the write slot as it stands: the handle shows
    /// whatever the slot held two publishes ago, so the caller must overwrite
    /// the value as a whole.
    ///
    /// Acquiring the slot in this way counts as acquiring it: the published
    /// flag is cleared, and the next `write` copies only after another publish.
    ///
    /// The handle stands on the slot that the direction it records assigns to
    /// the writer, and is not marked as resynchronised.
    pub fn write_without_sync(&self) -> (outcome: Result<WriteHandle<'_, T>, Violation>)
        ensures
            outcome matches Ok(handle) ==> !handle.synced() && handle.slot() == writing_side(
                handle.direction(),
            ),
            outcome matches Err(violation) ==> violation is WriterContention,
    {
        let outcome = self.acquire(None);
        if outcome.is_ok() {
            self.has_been_published.store(false, Ordering::Relaxed);
        }
        outcome
    }

    /// Tries once to lock the write slot exclusively, for a handle that is
    /// marked as resynchronised if `copied` holds the mark of the copy.
    fn acquire(&self, copied: Option<Copied>) -> (outcome: Result<WriteHandle<'_, T>, Violation>)
        ensures
            outcome matches Ok(handle) ==> handle.synced() == copied.is_some() && handle.slot()
                == writing_side(handle.direction()),
            outcome matches Err(violation) ==> violation is WriterContention,
    {
        self.lock_write_slot(self.direction.load(Ordering::Relaxed), copied)
    }

    /// Tries once to lock exclusively the slot that `direction` assigns to
    /// the writer. What the lock answers is settled by [`writer_access`]: the
    /// handle is on that slot; a refusal is reported as a second writer on
    /// that slot.
    fn lock_write_slot(&self, direction: bool, copied: Option<Copied>) -> (outcome: Result<
        WriteHandle<'_, T>,
        Violation,
    >)
        ensures
            outcome matches Ok(handle) ==> handle.direction() == direction && handle.slot()
                == writing_side(direction) && handle.synced() == copied.is_some(),
            outcome matches Err(violation) ==> violation == (Violation::WriterContention {
                slot: writing_side(direction),
            }),
    {
        let target = write_side(direction);
        writer_access(target, self.try_exclusive(direction, target, copied))
    }

    /// Copies the published value into the write slot, and returns the mark
    /// of the copy.
    ///
    /// Both slots are locked without waiting, the read slot shared and the
    /// write slot exclusively, and both are released before returning. A lock
    /// that cannot be had means that a handle of an earlier generation is
    /// still alive.
    fn sync(&self) -> (outcome: Result<Copied, Violation>)
        ensures
            outcome matches Err(violation) ==> violation is SyncContention,
    {
        self.copy_across(self.direction.load(Ordering::Relaxed))
    }

    /// Copies the value of the slot that `direction` assigns to readers into
    /// the slot that it assigns to the writer, by [`copy_value`]. What the
    /// two locks answer is settled by [`sync_access`]; the first to refuse is
    /// reported: the shared one on the read slot, or the exclusive one on the
    /// write slot.
    fn copy_across(&self, direction: bool) -> (outcome: Result<Copied, Violation>)
        ensures
            outcome matches Err(violation) ==> violation == (Violation::SyncContention {
                slot: reading_side(direction),
                access: Access::Shared,
            }) || violation == (Violation::SyncContention {
                slot: writing_side(direction),
                access: Access::Exclusive,
            }),
    {
        let source = read_side(direction);
        let target = write_side(direction);
        let old_data = match sync_access(
            source,
            Access::Shared,
            self.try_shared(direction, source, None),
        ) {
            Ok(handle) => handle,
            Err(violation) => {
                return Err(violation);
            },
        };
        let mut new_data = match sync_access(
            target,
            Access::Exclusive,
            self.try_exclusive(direction, target, None),
        ) {
            Ok(handle) => handle,
            Err(violation) => {
                return Err(violation);
            },
        };
        Ok(copy_value(old_data.deref(), new_data.deref_mut()))
    }

    /// Makes the value written through `writer` the published one.
    ///
    /// The handle is given up first and the direction flipped second, so that
    /// a reader who sees the new direction finds the slot unlocked. The caller
    /// must hand in the handle obtained from this buffer's write side.
    pub fn publish(&self, writer: WriteHandle<'_, T>) {
        drop(writer);
        let direction = self.direction.load(Ordering::Acquire);
        self.direction.store(flipped(direction), Ordering::Release);
        self.has_been_published.store(true, Ordering::Relaxed);
    }

    /// Flips the direction without asking for the write handle.
    ///
    /// Kept to show what `publish` is for: while the handle is still alive the
    /// new read slot is locked, and readers fall back to the value published
    /// before. Do not use it to publish. In the model this is
    /// [`crate::protocol::BufferModel::flip`].
    pub fn _old_publish(&self) {
        let direction = self.direction.load(Ordering::Acquire);
        self.direction.store(flipped(direction), Ordering::Release);
        self.has_been_published.store(true, Ordering::Relaxed);
    }
}

} // verus!
