//! A model of the lock as a state machine, and what the code takes from it.
//!
//! [`LockState`] is a model: an attempt and a release are one step each. The
//! laws at the end are laws of that model; they are proved of sequences of
//! its steps, not of the cells that the code shares between cores.
//!
//! The code is tied to the model by the executable functions here. Every
//! value that [`DataLock`](crate::datalock::DataLock) stores in its flag or
//! its slot, and every decision of an attempt, comes from one of them:
//! [`first`], [`stored_by_attempt`], [`stored_by_release`],
//! [`may_open_slot`] and [`settle`].

use vstd::prelude::*;

verus! {

/// A lock between two steps.
pub struct LockState<T> {
    /// The flag that the atomic exchange reads and sets.
    pub held: bool,
    /// The guarded value while it rests in the lock; empty while a guard has it.
    pub slot: Option<T>,
}

impl<T> LockState<T> {
    /// A new lock around `value`: flag cleared, value in place.
    pub open spec fn fresh(value: T) -> Self {
        LockState { held: false, slot: Some(value) }
    }

    /// The flag is set exactly while a guard is alive, that is while the
    /// value is out of the lock.
    pub open spec fn consistent(self) -> bool {
        self.held <==> self.slot is None
    }

    /// How many guards are alive.
    pub open spec fn guards(self) -> nat {
        if self.slot is None {
            1
        } else {
            0
        }
    }

    /// What one non-blocking attempt hands to the caller: the value, if the
    /// flag was clear; nothing, if it was set.
    pub open spec fn granted(self) -> Option<T> {
        if self.held {
            None
        } else {
            self.slot
        }
    }

    /// The lock after one non-blocking attempt. The exchange sets the flag
    /// whatever it was; a lock that was held is left as it was.
    pub open spec fn attempt(self) -> Self {
        if self.held {
            self
        } else {
            LockState { held: true, slot: None }
        }
    }

    /// The lock after the guard that carried `value` is gone.
    pub open spec fn release(self, value: T) -> Self {
        LockState { held: false, slot: Some(value) }
    }

    /// One attempt, then, if it won, a guard that ends carrying `written`.
    pub open spec fn cycle(self, written: T) -> Self {
        if self.granted() is Some {
            self.attempt().release(written)
        } else {
            self.attempt()
        }
    }

    /// One cycle for each value of `written`, in order.
    pub open spec fn cycles(self, written: Seq<T>) -> Self
        decreases written.len(),
    {
        if written.len() == 0 {
            self
        } else {
            self.cycles(written.drop_last()).cycle(written.last())
        }
    }

    /// `n` attempts in a row, by whichever cores.
    pub open spec fn attempts(self, n: nat) -> Self
        decreases n,
    {
        if n == 0 {
            self
        } else {
            self.attempts((n - 1) as nat).attempt()
        }
    }
}

/// How one attempt ends.
pub enum Settled<T> {
    /// The flag was set: the lock is held, and nothing was touched.
    Refused,
    /// The flag was clear and the slot gave the value: the caller holds the
    /// lock.
    Granted(T),
    /// The flag was clear, but the slot was shut or empty: the caller has no
    /// value to guard and gives the flag back.
    GiveBack,
}

/// How an attempt ends, given the flag's value before the exchange, whether
/// the slot opened, and what it held.
pub open spec fn settled<T>(prior: bool, opened: bool, contents: Option<T>) -> Settled<T> {
    if prior {
        Settled::Refused
    } else if opened && contents is Some {
        Settled::Granted(contents.unwrap())
    } else {
        Settled::GiveBack
    }
}

/// The state in which a lock around `value` starts.
pub fn first<T>(value: T) -> (state: LockState<T>)
    ensures
        state == LockState::fresh(value),
{
    LockState { held: false, slot: Some(value) }
}

/// The value that an attempt's exchange stores in the flag: the flag of the
/// lock after an attempt, whatever the lock was.
pub fn stored_by_attempt<T>() -> (flag: bool)
    ensures
        flag,
        forall|state: LockState<T>| flag == (#[trigger] state.attempt()).held,
{
    true
}

/// The value that a release stores in the flag: the flag of the lock after a
/// release, whatever the lock was and whatever comes back.
pub fn stored_by_release<T>() -> (flag: bool)
    ensures
        !flag,
        forall|state: LockState<T>, value: T| flag == (#[trigger] state.release(value)).held,
    opens_invariants none
    no_unwind
{
    false
}

/// Whether an attempt may touch the slot: only if its exchange found the
/// flag clear.
pub fn may_open_slot(prior: bool) -> (open: bool)
    ensures
        open == !prior,
{
    !prior
}

/// Decides one attempt from what it found.
pub fn settle<T>(prior: bool, opened: bool, contents: Option<T>) -> (end: Settled<T>)
    ensures
        end == settled(prior, opened, contents),
        prior ==> end is Refused,
        !prior && opened && contents is Some ==> end == Settled::Granted(contents.unwrap()),
        !prior && !(opened && contents is Some) ==> end is GiveBack,
{
    if prior {
        return Settled::Refused;
    }
    if !opened {
        return Settled::GiveBack;
    }
    match contents {
        Some(value) => Settled::Granted(value),
        None => Settled::GiveBack,
    }
}

/// An attempt that finds the lock in a consistent state, with a slot that
/// opens, ends as the model says: it is granted what [`LockState::granted`]
/// hands out, or refused, and never has to give the flag back.
pub proof fn law_settled_attempt_follows_model<T>(state: LockState<T>)
    requires
        state.consistent(),
    ensures
        !(settled(state.held, true, state.slot) is GiveBack),
        settled(state.held, true, state.slot) is Refused <==> state.granted() is None,
        state.granted() matches Some(value) ==> settled(state.held, true, state.slot)
            == Settled::Granted(value),
{
}

/// A new lock is consistent, and every step keeps it so: at any instant at
/// most one guard is alive, and the flag is set exactly while one is.
pub proof fn law_steps_keep_consistency<T>(state: LockState<T>, value: T)
    requires
        state.consistent(),
    ensures
        LockState::fresh(value).consistent(),
        LockState::fresh(value).guards() == 0,
        state.attempt().consistent(),
        state.release(value).consistent(),
        state.guards() <= 1,
        state.held <==> state.guards() == 1,
{
}

/// Cycles of one context on a free lock leave it free.
pub proof fn law_cycles_leave_lock_free<T>(state: LockState<T>, written: Seq<T>)
    requires
        state.consistent(),
        !state.held,
    ensures
        state.cycles(written).consistent(),
        !state.cycles(written).held,
        state.cycles(written).slot == if written.len() == 0 {
            state.slot
        } else {
            Some(written.last())
        },
    decreases written.len(),
{
    if written.len() > 0 {
        law_cycles_leave_lock_free(state, written.drop_last());
    }
}

/// Read after write: after any number of acquire, write, release cycles of
/// one context, the next attempt wins and sees the value written last, or the
/// lock's first value if there was no cycle.
pub proof fn law_read_after_write<T>(first: T, written: Seq<T>)
    ensures
        LockState::fresh(first).cycles(written).granted() == Some(
            if written.len() == 0 {
                first
            } else {
                written.last()
            },
        ),
{
    law_cycles_leave_lock_free(LockState::fresh(first), written);
}

/// Of two attempts that race for one lock, whichever exchange comes first,
/// at most one wins; on a free lock exactly the first does.
pub proof fn law_at_most_one_wins<T>(state: LockState<T>)
    ensures
        !(state.granted() is Some && state.attempt().granted() is Some),
        state.attempt().granted() is None,
        state.consistent() && !state.held ==> state.granted() is Some,
{
}

/// No lock-out: once the guard is gone, the next attempt wins, and is handed
/// the value that the guard left.
pub proof fn law_release_reopens<T>(state: LockState<T>, value: T)
    ensures
        state.release(value).granted() == Some(value),
        state.release(value).attempt().held,
{
}

/// While a guard is alive every attempt fails, however many are made, and
/// leaves the lock as it was.
pub proof fn law_held_lock_refuses<T>(state: LockState<T>, n: nat)
    requires
        state.held,
    ensures
        state.attempts(n) == state,
        state.attempts(n).granted() is None,
    decreases n,
{
    if n > 0 {
        law_held_lock_refuses(state, (n - 1) as nat);
    }
}

} // verus!
