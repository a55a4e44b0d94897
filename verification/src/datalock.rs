//! The lock itself: a flag that cores exchange atomically, and the value it
//! guards.
//!
//! The value rests in a slot inside the lock. The core that wins the flag
//! moves the value out of the slot into its guard, and the guard moves it
//! back before it clears the flag, so the value is in one place at any time
//! and only the guard's owner can reach it. Nothing but an attempt that has
//! won the flag and a guard that leaves ever opens the slot.

use crate::protocol::{first, may_open_slot, settle, stored_by_attempt, stored_by_release, Settled};
use std::ops::{Deref, DerefMut};
use std::sync::atomic::{AtomicBool, Ordering};
use std::sync::{Mutex, MutexGuard, TryLockError};
use vstd::prelude::*;

verus! {

/// `std::sync::Mutex`, used as the cell that keeps the value while no guard
/// has it. Verus sees nothing inside it.
#[verifier::external_type_specification]
#[verifier::external_body]
#[verifier::reject_recursive_types(T)]
pub struct ExMutex<T: ?Sized>(Mutex<T>);

/// `Mutex::new`, around what the slot starts with. Nothing is claimed of the
/// result.
#[verifier::external_body]
fn slot_new<T>(contents: Option<T>) -> Mutex<Option<T>> {
    Mutex::new(contents)
}

/// `std::sync::MutexGuard`: the slot while it is open. Verus sees nothing
/// inside it.
#[verifier::external_type_specification]
#[verifier::external_body]
#[verifier::reject_recursive_types(T)]
pub struct ExMutexGuard<'a, T: ?Sized + 'a>(MutexGuard<'a, T>);

/// `Mutex::try_lock`, which never blocks. A poisoned mutex is opened all the
/// same. Claimed: the call returns without unwinding. Nothing is claimed of
/// whether the slot opens.
#[verifier::external_body]
fn slot_open<T>(slot: &Mutex<Option<T>>) -> (cell: Option<MutexGuard<'_, Option<T>>>)
    opens_invariants none
    no_unwind
{
    match slot.try_lock() {
        Ok(cell) => Some(cell),
        Err(TryLockError::Poisoned(poisoned)) => Some(poisoned.into_inner()),
        Err(TryLockError::WouldBlock) => None,
    }
}

/// `MutexGuard::deref_mut`: the contents of the open slot. Claimed: the call
/// returns without unwinding. Nothing is claimed of the contents.
#[verifier::external_body]
fn slot_contents<'a, 'b, T>(cell: &'a mut MutexGuard<'b, Option<T>>) -> (contents: &'a mut Option<T>)
    opens_invariants none
    no_unwind
{
    cell.deref_mut()
}

/// `AtomicBool::swap` with sequentially consistent ordering. Claimed: the
/// call returns without unwinding. Nothing is claimed of the value that was
/// there before: that depends on what other cores did.
#[verifier::external_body]
fn flag_exchange(flag: &AtomicBool, held: bool) -> (prior: bool)
    opens_invariants none
    no_unwind
{
    flag.swap(held, Ordering::SeqCst)
}

/// `std::sync::atomic::fence` with sequentially consistent ordering, the one
/// barrier every target has. Claimed: the call returns without unwinding.
#[verifier::external_body]
fn fence()
    opens_invariants none
    no_unwind
{
    std::sync::atomic::fence(Ordering::SeqCst)
}

/// Exchanges what the slot holds with `with`, if the slot opens, and says
/// whether it did. A slot that stays shut leaves `with` as it was. What the
/// slot held is not known here: it is whatever the last owner of the flag
/// left in it.
fn exchange_with_slot<T>(slot: &Mutex<Option<T>>, with: &mut Option<T>) -> (opened: bool)
    ensures
        !opened ==> *final(with) == *old(with),
    opens_invariants none
    no_unwind
{
    match slot_open(slot) {
        Some(mut cell) => {
            std::mem::swap(slot_contents(&mut cell), with);
            true
        },
        None => false,
    }
}

/// The value inside a filled slot.
fn occupant<T>(cell: &mut Option<T>) -> (r: &mut T)
    requires
        old(cell).is_some(),
    ensures
        *r == old(cell).unwrap(),
        *final(cell) == Some(*final(r)),
    no_unwind
{
    match cell {
        Some(v) => v,
        None => unreached(),
    }
}

/// An exclusive access lock around a value.
///
/// The lock can be shared between cores because the value can be reached
/// through a [`TryDataLock`] only, and at most one of them is alive at a time.
/// For the same reason the lock cannot be printed: that would read the value
/// past the guard.
#[verifier::reject_recursive_types(T)]
pub struct DataLock<T> {
    locked: AtomicBool,
    slot: Mutex<Option<T>>,
}

/// What a guard owns: the value, and the lock it goes back to.
#[verifier::reject_recursive_types(T)]
struct Tenure<'a, T> {
    home: &'a DataLock<T>,
    value: Option<T>,
}

/// Exclusive access to the value of a [`DataLock`], for as long as it lives.
/// When it goes out of scope the lock is released.
#[verifier::reject_recursive_types(T)]
pub struct TryDataLock<'a, T> {
    tenure: Tenure<'a, T>,
}

impl<T> DataLock<T> {
    /// A new lock around `value`. Its flag and its slot start with what
    /// [`first`] gives: flag clear, value in place.
    pub fn new(value: T) -> (lock: Self) {
        let start = first(value);
        DataLock { locked: AtomicBool::new(start.held), slot: slot_new(start.slot) }
    }

    /// One attempt to lock the value, which never blocks. `None` means that
    /// the lock is held.
    ///
    /// The flag is exchanged for [`stored_by_attempt`]. What the exchange
    /// finds depends on the other cores, so nothing is promised of the
    /// outcome here but that a guard belongs to this lock. Each decision is
    /// made one call down: [`may_open_slot`] says whether the slot is
    /// touched, [`settle`] how the attempt ends, and a guard carries exactly
    /// the value that [`settle`] grants.
    pub fn try_lock(&self) -> (guard: Option<TryDataLock<'_, T>>)
        ensures
            guard matches Some(g) ==> g.home() == *self,
    {
        let prior: bool = flag_exchange(&self.locked, stored_by_attempt::<T>());
        let mut contents: Option<T> = None;
        let mut opened: bool = false;
        if may_open_slot(prior) {
            fence();
            opened = exchange_with_slot(&self.slot, &mut contents);
        }
        self.hand_out(settle(prior, opened, contents))
    }

    /// Ends an attempt as settled: a guard around the value that was
    /// granted; nothing if the attempt was refused; nothing, with the flag
    /// given back, if there was no value to guard.
    fn hand_out(&self, end: Settled<T>) -> (guard: Option<TryDataLock<'_, T>>)
        ensures
            guard is Some <==> end is Granted,
            guard matches Some(g) ==> g.home() == *self && end == Settled::Granted(g@),
    {
        match end {
            Settled::Granted(value) => Some(
                TryDataLock { tenure: Tenure { home: self, value: Some(value) } },
            ),
            Settled::Refused => None,
            Settled::GiveBack => {
                flag_exchange(&self.locked, stored_by_release::<T>());
                None
            },
        }
    }

    /// [`DataLock::try_lock`] with the core's interrupts off. `disable` runs
    /// first and returns the interrupt state that it found; the attempt is
    /// made; then `enable` is given that state back, whether the attempt won
    /// or not. So no handler on this core can interrupt the attempt and try
    /// for the same lock.
    pub fn try_lock_interrupt_safe<S, D: Fn() -> S, E: Fn(S)>(
        &self,
        disable: &D,
        enable: &E,
    ) -> (guard: Option<TryDataLock<'_, T>>)
        requires
            disable.requires(()),
            forall|saved: S| disable.ensures((), saved) ==> enable.requires((saved,)),
        ensures
            exists|saved: S| disable.ensures((), saved) && enable.ensures((saved,), ()),
            guard matches Some(g) ==> g.home() == *self,
    {
        let saved = disable();
        let guard = self.try_lock();
        enable(saved);
        guard
    }
}

impl<'a, T> TryDataLock<'a, T> {
    #[verifier::type_invariant]
    spec fn live(&self) -> bool {
        self.tenure.value.is_some()
    }

    /// The lock that this guard holds.
    pub closed spec fn home(&self) -> DataLock<T> {
        *self.tenure.home
    }

    /// The guarded value as it is now.
    pub closed spec fn view(&self) -> T {
        self.tenure.value.unwrap()
    }
}

impl<T> Deref for TryDataLock<'_, T> {
    type Target = T;

    /// Read access to the guarded value.
    fn deref(&self) -> (r: &T)
        ensures
            *r == self@,
    {
        proof {
            use_type_invariant(self);
        }
        match &self.tenure.value {
            Some(v) => v,
            None => unreached(),
        }
    }
}

impl<T> DerefMut for TryDataLock<'_, T> {
    /// Write access to the guarded value: what is written through the
    /// reference is the guard's value from then on.
    fn deref_mut(&mut self) -> (r: &mut T)
        ensures
            *r == old(self)@,
            final(self)@ == *final(r),
            final(self).home() == old(self).home(),
    {
        proof {
            use_type_invariant(&*self);
        }
        occupant(&mut self.tenure.value)
    }
}

impl<T> Drop for Tenure<'_, T> {
    /// Releases the lock: the value goes back into the slot, a barrier makes
    /// the writes of the critical section visible, and only then the flag is
    /// set to [`stored_by_release`].
    fn drop(&mut self)
        opens_invariants none
        no_unwind
    {
        exchange_with_slot(&self.home.slot, &mut self.value);
        fence();
        flag_exchange(&self.home.locked, stored_by_release::<T>());
        fence();
    }
}

} // verus!
