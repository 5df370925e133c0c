//! The model of [`crate::protocol`] in executable form.
//!
//! A [`Replica`] is the buffer without its locks: plain values and counters,
//! changed through `&mut`, each operation proved to do exactly what the model
//! says. Run side by side with a [`crate::LeftRightBuffer`] it tells, step
//! by step, which slot a guard of the buffer belongs to, what the guard has
//! to show and which violation is due, so that the buffer can be held to the
//! model on which the laws are proved.

use crate::protocol::{BufferModel, SlotModel};
use crate::side::{read_side, write_side, Side};
use crate::violation::{Access, Violation};
use vstd::prelude::*;

verus! {

/// One slot of a replica: its value and the guards alive on it.
pub struct SlotRecord<T> {
    value: T,
    readers: usize,
    writer: bool,
}

impl<T> SlotRecord<T> {
    /// The slot of the model that this record stands for.
    pub closed spec fn view(&self) -> SlotModel<T> {
        SlotModel { value: self.value, readers: self.readers as nat, writer: self.writer }
    }
}

/// A buffer replayed on one thread, with guards kept count of instead of held.
pub struct Replica<T> {
    left: SlotRecord<T>,
    right: SlotRecord<T>,
    direction: bool,
    published: bool,
}

impl<T: Copy> Replica<T> {
    /// The state of the model that this replica is in.
    pub closed spec fn view(&self) -> BufferModel<T> {
        BufferModel {
            left: self.left@,
            right: self.right@,
            direction: self.direction,
            published: self.published,
        }
    }

    /// The replica of a new buffer.
    pub fn new(value: T) -> (replica: Replica<T>)
        ensures
            replica@ == BufferModel::init(value),
    {
        Replica {
            left: SlotRecord { value, readers: 0, writer: false },
            right: SlotRecord { value, readers: 0, writer: false },
            direction: false,
            published: false,
        }
    }

    /// The direction flag.
    pub fn direction(&self) -> (direction: bool)
        ensures
            direction == self@.direction,
    {
        self.direction
    }

    /// The published flag.
    pub fn published(&self) -> (published: bool)
        ensures
            published == self@.published,
    {
        self.published
    }

    /// The value in the slot on `side`.
    pub fn value(&self, side: Side) -> (value: T)
        ensures
            value == self@.slot(side).value,
    {
        match side {
            Side::Left => self.left.value,
            Side::Right => self.right.value,
        }
    }

    /// How many read guards of the slot on `side` are alive.
    pub fn readers(&self, side: Side) -> (count: usize)
        ensures
            count == self@.slot(side).readers,
    {
        match side {
            Side::Left => self.left.readers,
            Side::Right => self.right.readers,
        }
    }

    /// Whether the write guard of the slot on `side` is alive.
    pub fn has_writer(&self, side: Side) -> (alive: bool)
        ensures
            alive == self@.slot(side).writer,
    {
        match side {
            Side::Left => self.left.writer,
            Side::Right => self.right.writer,
        }
    }

    /// `read`: the slot whose read guard is handed out, or `None` where the
    /// buffer would wait.
    pub fn read(&mut self) -> (granted: Option<Side>)
        requires
            old(self)@.left.readers < usize::MAX,
            old(self)@.right.readers < usize::MAX,
        ensures
            match old(self)@.read() {
                Some(grant) => granted == Some(grant.side) && final(self)@ == grant.state,
                None => granted.is_none() && final(self)@ == old(self)@,
            },
    {
        let nominal = read_side(self.direction);
        let side = if self.has_writer(nominal) {
            nominal.other()
        } else {
            nominal
        };
        if self.has_writer(side) {
            None
        } else {
            match side {
                Side::Left => {
                    self.left.readers = self.left.readers + 1;
                },
                Side::Right => {
                    self.right.readers = self.right.readers + 1;
                },
            }
            Some(side)
        }
    }

    /// A read guard of the slot on `side` is dropped.
    pub fn end_read(&mut self, side: Side)
        requires
            old(self)@.slot(side).readers > 0,
        ensures
            final(self)@ == old(self)@.end_read(side),
    {
        match side {
            Side::Left => {
                self.left.readers = self.left.readers - 1;
            },
            Side::Right => {
                self.right.readers = self.right.readers - 1;
            },
        }
    }

    /// `write_without_sync`: the slot whose write guard is handed out, or the
    /// violation reported.
    pub fn write_without_sync(&mut self) -> (outcome: Result<Side, Violation>)
        ensures
            match old(self)@.write_without_sync() {
                Ok(grant) => outcome == Ok::<Side, Violation>(grant.side) && final(self)@
                    == grant.state,
                Err(violation) => outcome == Err::<Side, Violation>(violation) && final(self)@
                    == old(self)@,
            },
    {
        let side = write_side(self.direction);
        if self.has_writer(side) || self.readers(side) != 0 {
            Err(Violation::WriterContention { slot: side })
        } else {
            match side {
                Side::Left => {
                    self.left.writer = true;
                },
                Side::Right => {
                    self.right.writer = true;
                },
            }
            self.published = false;
            Ok(side)
        }
    }

    /// The resynchronisation: the published value copied into the write slot,
    /// or the violation reported.
    fn sync(&mut self) -> (outcome: Result<(), Violation>)
        ensures
            match old(self)@.sync() {
                Ok(synced) => outcome.is_ok() && final(self)@ == synced,
                Err(violation) => outcome == Err::<(), Violation>(violation) && final(self)@
                    == old(self)@,
            },
    {
        let source = read_side(self.direction);
        let target = write_side(self.direction);
        if self.has_writer(source) {
            Err(Violation::SyncContention { slot: source, access: Access::Shared })
        } else if self.has_writer(target) || self.readers(target) != 0 {
            Err(Violation::SyncContention { slot: target, access: Access::Exclusive })
        } else {
            self.store(target, self.value(source));
            Ok(())
        }
    }

    /// `write`: the slot whose write guard is handed out, or the violation
    /// reported.
    pub fn write(&mut self) -> (outcome: Result<Side, Violation>)
        ensures
            match old(self)@.write() {
                Ok(grant) => outcome == Ok::<Side, Violation>(grant.side) && final(self)@
                    == grant.state,
                Err(violation) => outcome == Err::<Side, Violation>(violation) && final(self)@
                    == old(self)@,
            },
    {
        if self.published {
            match self.sync() {
                Ok(()) => {},
                Err(violation) => {
                    return Err(violation);
                },
            }
            self.published = false;
        }
        self.write_without_sync()
    }

    /// `value` is stored in the slot on `side`, as through its write guard.
    pub fn store(&mut self, side: Side, value: T)
        ensures
            final(self)@ == old(self)@.store(side, value),
    {
        match side {
            Side::Left => {
                self.left.value = value;
            },
            Side::Right => {
                self.right.value = value;
            },
        }
    }

    /// The write guard of the slot on `side` is dropped unpublished.
    pub fn abandon(&mut self, side: Side)
        ensures
            final(self)@ == old(self)@.abandon(side),
    {
        match side {
            Side::Left => {
                self.left.writer = false;
            },
            Side::Right => {
                self.right.writer = false;
            },
        }
    }

    /// The direction is flipped and the published flag set, with no guard
    /// touched.
    pub fn flip(&mut self)
        ensures
            final(self)@ == old(self)@.flip(),
    {
        self.direction = !self.direction;
        self.published = true;
    }

    /// `publish` with the write guard of the slot on `side`.
    pub fn publish(&mut self, side: Side)
        ensures
            final(self)@ == old(self)@.publish(side),
    {
        self.abandon(side);
        self.flip();
    }
}

} // verus!
