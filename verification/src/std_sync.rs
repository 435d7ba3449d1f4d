//! The parts of `std::sync` and `std::task` that the scheduler builds on.
//!
//! Everything in this file is trusted: the types are opaque to Verus and each
//! function below makes one call into the standard library.  Results that
//! depend on other threads (whether a lock is free or poisoned) are reported
//! as plain enums and carry no promise beyond their shape.
//!
//! Two calls are deliberately not made here: the blocking `Mutex::lock`,
//! which panics or deadlocks when the calling thread holds the lock
//! already, and `Waker::wake`, which runs whatever code the waker's owner
//! gave it.  The library hands the wakers and locks to the runtime around
//! it, which makes those calls.
use vstd::prelude::*;
use std::sync::Arc;

verus! {

#[verifier::external_type_specification]
#[verifier::external_body]
#[verifier::reject_recursive_types(T)]
pub struct ExStdMutex<T: ?Sized>(std::sync::Mutex<T>);

#[verifier::external_type_specification]
#[verifier::external_body]
#[verifier::reject_recursive_types(T)]
pub struct ExStdMutexGuard<'a, T: ?Sized + 'a>(std::sync::MutexGuard<'a, T>);

#[verifier::external_type_specification]
#[verifier::external_body]
pub struct ExCondvar(std::sync::Condvar);

#[verifier::external_type_specification]
#[verifier::external_body]
pub struct ExWaker(std::task::Waker);

/// What an attempt to take a standard mutex gave back: the guard, either
/// clean or marked as poisoned by a thread that panicked while holding it.
pub enum Locked<G> {
    Clean(G),
    Poisoned(G),
}

/// What a non-blocking attempt to take a standard mutex gave back.
pub enum TryLocked<G> {
    Clean(G),
    Poisoned(G),
    WouldBlock,
}

/// `std::sync::Mutex::new`: wraps the value in a fresh mutex.  Nothing is
/// stated of the result: its contents are not visible to Verus.
#[verifier::external_body]
pub(crate) fn std_mutex_new<T>(t: T) -> std::sync::Mutex<T> {
    std::sync::Mutex::new(t)
}

/// `std::sync::Mutex::try_lock`: takes the lock if it is free.  Which
/// outcome comes back depends on other threads; nothing more is stated.
#[verifier::external_body]
pub(crate) fn std_mutex_try_lock<'a, T>(m: &'a std::sync::Mutex<T>) -> TryLocked<std::sync::MutexGuard<'a, T>> {
    match m.try_lock() {
        Ok(g) => TryLocked::Clean(g),
        Err(std::sync::TryLockError::Poisoned(p)) => TryLocked::Poisoned(p.into_inner()),
        Err(std::sync::TryLockError::WouldBlock) => TryLocked::WouldBlock,
    }
}

/// `std::sync::Mutex::into_inner`: consumes the mutex and gives back its
/// value, marked as poisoned or not.  Nothing is stated of the value.
#[verifier::external_body]
pub(crate) fn std_mutex_into_inner<T>(m: std::sync::Mutex<T>) -> Locked<T> {
    match m.into_inner() {
        Ok(t) => Locked::Clean(t),
        Err(p) => Locked::Poisoned(p.into_inner()),
    }
}

/// `std::sync::Mutex::get_mut`: a mutable reference to the value through an
/// exclusive borrow of the mutex, marked as poisoned or not.
#[verifier::external_body]
pub(crate) fn std_mutex_get_mut<'a, T>(m: &'a mut std::sync::Mutex<T>) -> Locked<&'a mut T> {
    match m.get_mut() {
        Ok(t) => Locked::Clean(t),
        Err(p) => Locked::Poisoned(p.into_inner()),
    }
}

/// `std::sync::Mutex::is_poisoned`: whether a holder of the lock panicked.
/// It depends on other threads; nothing is stated.
#[verifier::external_body]
pub(crate) fn std_mutex_is_poisoned<T>(m: &std::sync::Mutex<T>) -> bool {
    m.is_poisoned()
}

/// `Deref::deref` on a standard guard: the locked value.
#[verifier::external_body]
pub(crate) fn std_guard_ref<'a, 'b, T>(g: &'b std::sync::MutexGuard<'a, T>) -> &'b T {
    &**g
}

/// `DerefMut::deref_mut` on a standard guard: the locked value, mutably.
#[verifier::external_body]
pub(crate) fn std_guard_mut<'a, 'b, T>(g: &'b mut std::sync::MutexGuard<'a, T>) -> &'b mut T {
    &mut **g
}

/// `std::sync::Condvar::new`.
#[verifier::external_body]
pub(crate) fn condvar_new() -> std::sync::Condvar {
    std::sync::Condvar::new()
}

/// `std::sync::Condvar::notify_all`: wakes every thread waiting on it.
#[verifier::external_body]
pub(crate) fn condvar_notify_all(c: &std::sync::Condvar) {
    c.notify_all()
}

/// `Clone::clone` on an `Arc`: a second pointer to the same allocation,
/// which Verus sees as the same value.
#[verifier::external_body]
pub(crate) fn arc_clone<T>(a: &Arc<T>) -> (r: Arc<T>)
    ensures
        r == *a,
{
    a.clone()
}

/// `Clone::clone` on a waker.  What the clone is, is left to the waker's
/// own implementation; callers only learn `cloned(w, r)`.
pub assume_specification[ <std::task::Waker as Clone>::clone ](w: &std::task::Waker) -> std::task::Waker;

} // verus!
