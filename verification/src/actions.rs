//! A model of the lock at the grain of its atomic actions.
//!
//! In the code an attempt is two actions, the exchange on the flag and, if it
//! won, the move of the value out of the slot; a release is two more, the
//! move back and the store that clears the flag. [`Progress`] models a lock
//! between two such actions, by whichever cores. The laws here are laws of
//! that model: in it the slot is only ever touched by the owner of the flag,
//! and what the cores see is a run of
//! [`LockState`](crate::protocol::LockState), where an attempt and a release
//! are one step each. They are not proved of the shared cells themselves.

use crate::protocol::LockState;
use vstd::prelude::*;

verus! {

/// How far the core that owns the flag has come.
pub enum Phase {
    /// No core owns the flag.
    Nobody,
    /// A core has won the exchange and not yet opened the slot.
    Won,
    /// The value is in that core's guard.
    Holding,
    /// The guard has put the value back and not yet cleared the flag.
    Leaving,
}

/// A lock between two atomic actions.
pub struct Progress<T> {
    /// The flag.
    pub flag: bool,
    /// The slot inside the lock.
    pub slot: Option<T>,
    /// The owner of the flag.
    pub owner: Phase,
}

impl<T> Progress<T> {
    /// A new lock around `value`.
    pub open spec fn fresh(value: T) -> Self {
        Progress { flag: false, slot: Some(value), owner: Phase::Nobody }
    }

    /// The flag is set exactly while a core owns it, and the slot is empty
    /// exactly while a guard has the value.
    pub open spec fn sound(self) -> bool {
        &&& self.flag <==> !(self.owner is Nobody)
        &&& self.slot is None <==> self.owner is Holding
    }

    /// Any core exchanges the flag for `true`. It owns the flag from then on
    /// if the flag was clear.
    pub open spec fn exchange(self) -> Self {
        if self.flag {
            self
        } else {
            Progress { flag: true, slot: self.slot, owner: Phase::Won }
        }
    }

    /// The core that won moves the value out of the slot.
    pub open spec fn take(self) -> Self {
        Progress { flag: self.flag, slot: None, owner: Phase::Holding }
    }

    /// The guard moves `value` back into the slot.
    pub open spec fn put_back(self, value: T) -> Self {
        Progress { flag: self.flag, slot: Some(value), owner: Phase::Leaving }
    }

    /// The core that leaves clears the flag.
    pub open spec fn clear(self) -> Self {
        Progress { flag: false, slot: self.slot, owner: Phase::Nobody }
    }

    /// The lock as the cores see it: held from the exchange that won to the
    /// store that clears the flag.
    pub open spec fn seen(self) -> LockState<T> {
        LockState {
            held: self.flag,
            slot: if self.flag {
                None
            } else {
                self.slot
            },
        }
    }
}

/// A new lock is sound and every action keeps it so. The core that has won
/// the flag finds the slot filled.
pub proof fn law_actions_keep_soundness<T>(lock: Progress<T>, value: T)
    requires
        lock.sound(),
    ensures
        Progress::fresh(value).sound(),
        lock.exchange().sound(),
        lock.owner is Won ==> lock.slot is Some && lock.take().sound(),
        lock.owner is Holding ==> lock.put_back(value).sound(),
        lock.owner is Leaving ==> lock.clear().sound(),
{
}

/// Seen from outside, the exchange is one attempt, and hands out what the
/// winner then takes; the store that clears the flag is the release; the two
/// moves of the value change nothing that another core can see.
pub proof fn law_actions_follow_protocol<T>(lock: Progress<T>, value: T)
    requires
        lock.sound(),
    ensures
        Progress::fresh(value).seen() == LockState::fresh(value),
        lock.seen().consistent(),
        lock.exchange().seen() == lock.seen().attempt(),
        !lock.flag ==> lock.exchange().slot == lock.seen().granted(),
        lock.flag ==> lock.seen().granted() is None,
        lock.owner is Won ==> lock.take().seen() == lock.seen(),
        lock.owner is Holding ==> lock.put_back(value).seen() == lock.seen(),
        lock.owner is Leaving ==> lock.clear().seen() == lock.seen().release(lock.slot.unwrap()),
{
}

} // verus!
