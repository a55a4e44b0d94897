//! Exclusive access to a value shared between cores, guarded by an atomic flag.
//!
//! [`DataLock`] stores a value next to a flag. A successful atomic exchange on
//! the flag yields a [`TryDataLock`], the only path to the value; dropping it
//! gives the lock back. Nothing here blocks: contention shows as `None`.
//!
//! [`protocol`] is a model of the lock as a state machine, with its laws and
//! with the functions from which the lock takes every value it stores and
//! every decision. [`actions`] is a finer model, of single atomic actions.

pub mod actions;
pub mod datalock;
pub mod protocol;

pub use datalock::{DataLock, TryDataLock};
pub use protocol::LockState;
