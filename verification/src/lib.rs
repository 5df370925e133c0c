//! A double-buffered exchange cell for one writer and any number of readers.
//!
//! The buffer owns its payload twice. At every instant one copy is the *read
//! slot*, which readers lock in shared mode, and the other is the *write slot*,
//! which the single writer locks exclusively and edits in place. Publishing
//! releases the writer's lock and then swaps the two roles, so the last
//! published value wins and no queue is kept.
//!
//! The design assumes one core: "concurrency" is pre-emption, the writer runs
//! at the lowest priority and never interrupts a reader. Whenever an operation
//! finds a lock in a state that this assumption rules out, it reports a
//! [`Violation`] at once instead of waiting.
//!
//! * [`side`] — the two slots and the meaning of the direction flag.
//! * [`violation`] — the failures the write side can report.
//! * [`slot`] — the spin lock and its guards, as far as the verifier is told of them.
//! * [`step`] — what an operation does with the answer of a lock or a flag.
//! * [`handle`] — the handles a buffer gives out, each with the slot it is on.
//! * [`buffer`] — the buffer itself.
//! * [`protocol`] — a sequential model of the buffer and the laws proved of it.
//! * [`replica`] — the model in executable form, to run beside a buffer.

pub mod buffer;
pub mod handle;
pub mod protocol;
pub mod replica;
pub mod side;
pub mod slot;
pub mod step;
pub mod violation;

pub use buffer::LeftRightBuffer;
pub use handle::{ReadHandle, WriteHandle};
pub use side::Side;
pub use violation::{Access, Violation};
