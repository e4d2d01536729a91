//! The locks that guard what the caller's thread and the workers share:
//! `std::sync::Mutex`.

use std::sync::{Arc, Mutex, MutexGuard};
use vstd::prelude::*;

verus! {

/// `std::sync::Mutex`, of which nothing is looked into.
#[verifier::external_type_specification]
#[verifier::external_body]
#[verifier::reject_recursive_types(T)]
pub struct ExMutex<T: ?Sized>(Mutex<T>);

/// `std::sync::MutexGuard`, of which nothing is looked into. While a guard
/// lives, its lock is held.
#[verifier::external_type_specification]
#[verifier::external_body]
#[verifier::reject_recursive_types(T)]
pub struct ExMutexGuard<'a, T: ?Sized + 'a>(MutexGuard<'a, T>);

/// `Mutex::new`: an unlocked lock around `value`. Other threads may change
/// what the lock guards, so nothing is claimed of the lock.
pub assume_specification<T>[ Mutex::<T>::new ](value: T) -> (mutex: Mutex<T>)
;

/// `Mutex::lock`: waits until the lock is free and takes it. Fails, with
/// the text of the error, if a thread panicked while it held the lock. A
/// thread that already holds the lock must not ask for it again: the call
/// would not return. No function of this library does.
#[verifier::external_body]
pub(crate) fn lock<'a, T>(mutex: &'a Mutex<T>) -> (guard: Result<MutexGuard<'a, T>, String>) {
    mutex.lock().map_err(|e| e.to_string())
}

/// `DerefMut` of a guard: what the lock guards, for as long as the guard is
/// borrowed. Nothing is claimed of the value found there.
#[verifier::external_body]
pub(crate) fn access<'a, 'b, T>(guard: &'a mut MutexGuard<'b, T>) -> (value: &'a mut T) {
    &mut **guard
}

/// `Arc::clone`: one more handle on the same lock.
#[verifier::external_body]
pub(crate) fn share<T>(shared: &Arc<Mutex<T>>) -> (other: Arc<Mutex<T>>) {
    Arc::clone(shared)
}

} // verus!
