//! std's mutex and condition variable, as the channel's two halves use them
//! to share their protocol state across threads. Nothing is known here of
//! what a mutex holds: every value that the channel's state type can take
//! is one that its verified steps accept. std's `Cell` is declared too: a
//! marker of it keeps each half of a channel from being shared.
use vstd::prelude::*;

use std::cell::Cell;
use std::sync::{Condvar, Mutex, MutexGuard};

verus! {

#[verifier::external_type_specification]
#[verifier::external_body]
#[verifier::reject_recursive_types(T)]
pub struct ExMutex<T: ?Sized>(Mutex<T>);

#[verifier::external_type_specification]
#[verifier::external_body]
#[verifier::reject_recursive_types(T)]
pub struct ExMutexGuard<'a, T: ?Sized + 'a>(MutexGuard<'a, T>);

#[verifier::external_type_specification]
#[verifier::external_body]
pub struct ExCondvar(Condvar);

pub assume_specification<T>[ Mutex::<T>::new ](t: T) -> Mutex<T>;

pub assume_specification[ Condvar::new ]() -> Condvar;

#[verifier::external_type_specification]
#[verifier::external_body]
#[verifier::reject_recursive_types(T)]
pub struct ExCell<T: ?Sized>(Cell<T>);

/// Relies on `DerefMut` of `MutexGuard`: the value that the held lock guards.
#[verifier::external_body]
pub(crate) fn guarded<'a, 'b, T>(g: &'a mut MutexGuard<'b, T>) -> &'a mut T
    opens_invariants none
    no_unwind
{
    &mut **g
}

/// Relies on `Condvar::notify_one`: wakes the thread parked on `cv`, if any.
#[verifier::external_body]
pub(crate) fn notify(cv: &Condvar)
    opens_invariants none
    no_unwind
{
    cv.notify_one()
}

} // verus!
