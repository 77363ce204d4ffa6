//! What this crate takes on trust from the standard library.
//!
//! Verus reads the header of each item below and believes it; the bodies and
//! the library code behind them are not verified. The types are opaque: a
//! value of one of them can be stored, moved and compared in specifications,
//! and nothing is known of what is inside. Most of the functions promise
//! nothing of their result, because what comes back depends on the state of
//! the process; the verified code around them is then proved for whatever
//! comes back.

use std::io::Error;
use std::io::Stdin;
use std::io::StdinLock;
use std::io::Stdout;
use std::io::StdoutLock;
use std::path::PathBuf;
use std::sync::Arc;
use std::sync::Mutex;
use std::sync::MutexGuard;
use std::sync::PoisonError;
use vstd::prelude::*;

verus! {

/// `std::sync::Mutex`.
#[verifier::external_type_specification]
#[verifier::external_body]
#[verifier::reject_recursive_types(T)]
pub struct ExMutex<T: ?Sized>(Mutex<T>);

/// `std::sync::MutexGuard`.
#[verifier::external_type_specification]
#[verifier::external_body]
#[verifier::reject_recursive_types(T)]
pub struct ExMutexGuard<'a, T: ?Sized + 'a>(MutexGuard<'a, T>);

/// `std::sync::PoisonError`.
#[verifier::external_type_specification]
#[verifier::external_body]
#[verifier::reject_recursive_types(T)]
pub struct ExPoisonError<T>(PoisonError<T>);

/// `std::path::PathBuf`.
#[verifier::external_type_specification]
#[verifier::external_body]
pub struct ExPathBuf(PathBuf);

/// `std::io::Error`.
#[verifier::external_type_specification]
#[verifier::external_body]
pub struct ExError(Error);

/// `std::io::Stdin`.
#[verifier::external_type_specification]
#[verifier::external_body]
pub struct ExStdin(Stdin);

/// `std::io::StdinLock`.
#[verifier::external_type_specification]
#[verifier::external_body]
pub struct ExStdinLock<'a>(StdinLock<'a>);

/// `std::io::Stdout`.
#[verifier::external_type_specification]
#[verifier::external_body]
pub struct ExStdout(Stdout);

/// `std::io::StdoutLock`.
#[verifier::external_type_specification]
#[verifier::external_body]
pub struct ExStdoutLock<'a>(StdoutLock<'a>);

/// `Mutex::new` puts a value behind a fresh, unlocked mutex. Nothing is
/// claimed of the mutex.
pub assume_specification<T>[ Mutex::<T>::new ](value: T) -> (mutex: Mutex<T>);

/// `PoisonError::into_inner` gives up the value that the error carries.
/// Nothing is claimed of it.
pub assume_specification<T>[ PoisonError::<T>::into_inner ](error: PoisonError<T>) -> (inner: T);

/// `std::io::stdin` makes a handle on the standard input of the process.
pub assume_specification[ std::io::stdin ]() -> (handle: Stdin);

/// `std::io::stdout` makes a handle on the standard output of the process.
pub assume_specification[ std::io::stdout ]() -> (handle: Stdout);

/// `Mutex::lock` waits until the mutex is free and takes it. The result is
/// `Err` when an earlier holder panicked; either way it carries the guard.
/// Nothing is claimed of the outcome.
///
/// The standard library leaves open what happens when the calling thread
/// already holds the mutex: the call then never returns a guard (it blocks
/// forever or panics). A thread must drop its guard before it locks again.
#[verifier::external_body]
pub(crate) fn acquire<T>(mutex: &Mutex<T>) -> (attempt: Result<
    MutexGuard<'_, T>,
    PoisonError<MutexGuard<'_, T>>,
>) {
    mutex.lock()
}

/// `DerefMut::deref_mut` of a `MutexGuard` lends out the value behind the
/// mutex for as long as the guard is borrowed. Nothing is claimed of the
/// value.
#[verifier::external_body]
pub(crate) fn guarded<'g, T>(guard: &'g mut MutexGuard<'_, T>) -> (inner: &'g mut T) {
    &mut **guard
}

/// `Arc::clone` makes another pointer to the same allocation, so the new
/// pointer equals the old one.
#[verifier::external_body]
pub(crate) fn share<T>(shared: &Arc<T>) -> (again: Arc<T>)
    ensures
        again == *shared,
{
    Arc::clone(shared)
}

/// `Stdin::lock` waits for the lock on the standard input, which all of the
/// process shares, and takes it. Nothing is claimed of the guard.
///
/// As with a mutex, a thread that already holds this lock must drop it
/// before it locks again.
#[verifier::external_body]
pub(crate) fn acquire_stdin(handle: &Stdin) -> (guard: StdinLock<'static>) {
    handle.lock()
}

/// `Stdout::lock` waits for the lock on the standard output, which all of
/// the process shares, and takes it. Nothing is claimed of the guard.
#[verifier::external_body]
pub(crate) fn acquire_stdout(handle: &Stdout) -> (guard: StdoutLock<'static>) {
    handle.lock()
}

/// The path that `PathBuf::from` makes of a text.
pub uninterp spec fn path_of(text: Seq<char>) -> PathBuf;

/// `PathBuf::from`, for a `&str`, copies the text into a new path. The
/// result depends on the text alone; it is known here only as
/// `path_of(text)`.
#[verifier::external_body]
pub(crate) fn path_from_text(text: &str) -> (path: PathBuf)
    ensures
        path == path_of(text@),
{
    PathBuf::from(text)
}

} // verus!
