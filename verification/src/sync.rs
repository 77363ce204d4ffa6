//! Locking that a poisoned mutex cannot stop.
//!
//! A mutex is poisoned when a thread panics while it holds the guard. The
//! value behind the mutex is still there, and for the streams of this crate
//! it is still good: the panic was in the code that used the stream. So a
//! poisoned lock is taken like any other.

use crate::assumed::acquire;
use std::sync::Mutex;
use std::sync::MutexGuard;
use std::sync::PoisonError;
use vstd::prelude::*;

verus! {

/// Gives the guard that an attempt to lock has produced, whether the attempt
/// found the mutex poisoned or not.
///
/// A clean attempt gives its guard unchanged. A poisoned one gives the guard
/// that the error carries; the mark that a holder had panicked is dropped
/// with the error.
pub fn recover<G>(attempt: Result<G, PoisonError<G>>) -> (guard: G)
    ensures
        recovered(attempt, guard),
{
    match attempt {
        Ok(guard) => guard,
        Err(poisoned) => poisoned.into_inner(),
    }
}

/// Locks `mutex` and returns the guard, waiting for as long as another
/// holder keeps it.
///
/// There is no error to return: the guard is what [`recover`] makes of the
/// outcome of locking this mutex, poisoned or not. What the guard protects
/// depends on what the other holders of the mutex did and is left open.
///
/// A thread that holds a guard of `mutex` must drop it before it locks
/// `mutex` again: the mutex is not reentrant, and the second call would never
/// come back with a guard.
pub fn lock<'a, T>(mutex: &'a Mutex<T>) -> (guard: MutexGuard<'a, T>)
    ensures
        exists|attempt: Result<MutexGuard<'a, T>, PoisonError<MutexGuard<'a, T>>>| #[trigger]
            attempted(mutex, attempt) && recovered(attempt, guard),
{
    let attempt = acquire(mutex);
    assert(attempted(mutex, attempt));
    recover(attempt)
}

/// Whether `attempt` is an outcome of `Mutex::lock` on `mutex`. This is known
/// of what such a call has returned, and cannot be shown of any other value.
pub closed spec fn attempted<'a, T>(
    mutex: &'a Mutex<T>,
    attempt: Result<MutexGuard<'a, T>, PoisonError<MutexGuard<'a, T>>>,
) -> bool {
    call_ensures(acquire::<T>, (mutex,), attempt)
}

/// What [`recover`] makes of an attempt to lock: the guard of a clean
/// attempt, unchanged, and of a poisoned one what `PoisonError::into_inner`
/// takes out of the error.
pub open spec fn recovered<G>(attempt: Result<G, PoisonError<G>>, guard: G) -> bool {
    match attempt {
        Ok(clean) => guard == clean,
        Err(poisoned) => call_ensures(PoisonError::<G>::into_inner, (poisoned,), guard),
    }
}

} // verus!
