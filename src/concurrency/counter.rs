//! A counter behind a reference-counted lock.
use std::sync::{Arc, Mutex, MutexGuard, PoisonError};
use vstd::prelude::*;

verus! {

#[verifier::external_type_specification]
#[verifier::external_body]
#[verifier::reject_recursive_types(T)]
pub struct ExMutex<T: ?Sized>(Mutex<T>);

#[verifier::external_type_specification]
#[verifier::external_body]
#[verifier::reject_recursive_types(T)]
pub struct ExMutexGuard<'a, T: ?Sized + 'a>(MutexGuard<'a, T>);

#[verifier::external_type_specification]
#[verifier::external_body]
#[verifier::reject_recursive_types(T)]
pub struct ExPoisonError<T>(PoisonError<T>);

/// Why an operation on the shared counter did not take place.
#[derive(Debug, Clone, Copy, PartialEq, Eq, Structural)]
pub enum CounterError {
    /// A former holder of the lock ended abnormally while holding it, so the
    /// value behind it can no longer be trusted.
    LockPoisoned,
    /// Adding one would take the value past `i32::MAX`.
    Overflow,
}

/// The value that a lock was made around. What the lock holds later is
/// up to the threads that take it.
pub uninterp spec fn lock_made_with(m: Mutex<i32>) -> i32;

/// Relies on `Mutex::new`: a lock around `v`, not held by anyone.
#[verifier::external_body]
fn new_lock(v: i32) -> (r: Mutex<i32>)
    ensures
        lock_made_with(r) == v,
{
    Mutex::new(v)
}

/// Relies on `Mutex::lock`: waits for the lock, and reports it poisoned when
/// a former holder panicked while holding it. Locking a mutex that the
/// calling thread already holds may panic or deadlock; the library never
/// nests its locks.
#[verifier::external_body]
fn acquire(m: &Mutex<i32>) -> (r: Result<MutexGuard<'_, i32>, PoisonError<MutexGuard<'_, i32>>>) {
    m.lock()
}

/// Relies on `MutexGuard`'s `Deref`: the value that the held lock protects.
#[verifier::external_body]
fn read_guarded(g: &MutexGuard<'_, i32>) -> (r: i32) {
    **g
}

/// Relies on `MutexGuard`'s `DerefMut`: replaces the value that the held lock
/// protects by `v`.
#[verifier::external_body]
fn write_guarded(g: &mut MutexGuard<'_, i32>, v: i32) {
    **g = v;
}

/// Relies on `Arc::clone`: a new handle to the same allocation.
#[verifier::external_body]
fn share(a: &Arc<Mutex<i32>>) -> (r: Arc<Mutex<i32>>)
    ensures
        r == *a,
{
    Arc::clone(a)
}

/// The value that follows `current` when one worker adds one: the next
/// integer, or an overflow at `i32::MAX`.
pub open spec fn count_step(current: i32) -> Result<i32, CounterError> {
    if current < i32::MAX {
        Ok((current + 1) as i32)
    } else {
        Err(CounterError::Overflow)
    }
}

/// The value that follows `current` when one worker adds one, or why it
/// cannot be stored.
pub fn next_count(current: i32) -> (r: Result<i32, CounterError>)
    ensures
        r == count_step(current),
{
    if current < i32::MAX {
        Ok(current + 1)
    } else {
        Err(CounterError::Overflow)
    }
}

/// One critical section on a shared handle: takes the lock, reads the value,
/// stores the value that `next_count` gives for it, and lets the lock go.
/// On success it returns the value stored.
pub fn increment_shared(handle: &Arc<Mutex<i32>>) -> (r: Result<i32, CounterError>)
    ensures
        r matches Ok(v) ==> v > i32::MIN,
        r matches Err(e) ==> e == CounterError::LockPoisoned || e == CounterError::Overflow,
{
    match acquire(&**handle) {
        Err(_) => Err(CounterError::LockPoisoned),
        Ok(mut guard) => {
            let current = read_guarded(&guard);
            match next_count(current) {
                Ok(v) => {
                    write_guarded(&mut guard, v);
                    Ok(v)
                },
                Err(e) => Err(e),
            }
        },
    }
}

/// A counter that starts at zero and that any number of threads may add to,
/// each through its own handle to the same lock.
pub struct ThreadSafeCounter {
    count: Arc<Mutex<i32>>,
}

impl ThreadSafeCounter {
    /// The lock that every handle of this counter shares.
    pub closed spec fn shared(&self) -> Mutex<i32> {
        *self.count
    }

    /// A counter whose lock is made around zero.
    pub fn new() -> (r: Self)
        ensures
            lock_made_with(r.shared()) == 0,
    {
        ThreadSafeCounter { count: Arc::new(new_lock(0)) }
    }

    /// Adds one to the counter under its lock.
    pub fn increment(&self) -> (r: Result<i32, CounterError>)
        ensures
            r matches Ok(v) ==> v > i32::MIN,
            r matches Err(e) ==> e == CounterError::LockPoisoned || e == CounterError::Overflow,
    {
        increment_shared(&self.count)
    }

    /// The counter's value, read under its lock. Fails only when the lock is poisoned.
    pub fn get_count(&self) -> (r: Result<i32, CounterError>)
        ensures
            r matches Err(e) ==> e == CounterError::LockPoisoned,
    {
        match acquire(&*self.count) {
            Err(_) => Err(CounterError::LockPoisoned),
            Ok(guard) => Ok(read_guarded(&guard)),
        }
    }

    /// A further handle to the counter's lock, for a worker to add through.
    /// A thread that holds this lock must let it go before it calls
    /// `increment` or `get_count`: locking a mutex twice from one thread may
    /// panic or deadlock.
    pub fn get_count_arc(&self) -> (r: Arc<Mutex<i32>>)
        ensures
            *r == self.shared(),
    {
        share(&self.count)
    }
}

} // verus!
