//! Handles on a source of bytes: the standard input, or a file that is
//! already open for reading.

use crate::assumed::acquire_stdin;
use crate::assumed::guarded;
use crate::assumed::path_of;
use crate::assumed::share;
use crate::sync::lock;
use crate::target::marker;
use crate::target::Target;
use std::io::Error;
use std::io::StdinLock;
use std::path::PathBuf;
use std::sync::Arc;
use std::sync::Mutex;
use std::sync::MutexGuard;
use vstd::prelude::*;

verus! {

/// A source of bytes: the standard input, or a file opened for reading.
///
/// `R` is the reader over the open file, as a rule a buffered one. A handle
/// can be duplicated with `clone`: the duplicates of a file handle share the
/// one reader, so they read from one position in the file, and none of them
/// opens the file again. The view of a handle is its [`Target`], which never
/// changes.
#[derive(Debug)]
#[verifier::reject_recursive_types(R)]
pub struct Input<R> {
    inner: InputInner<R>,
}

#[derive(Debug)]
#[verifier::reject_recursive_types(R)]
enum InputInner<R> {
    Stdin,
    File { path: Arc<PathBuf>, reader: Arc<Mutex<R>> },
}

impl<R> View for Input<R> {
    type V = Target;

    closed spec fn view(&self) -> Target {
        match self.inner {
            InputInner::Stdin => Target::Standard,
            InputInner::File { path, .. } => Target::File(*path),
        }
    }
}

impl<R> Input<R> {
    /// What `outcome` must be when opening the file at `path` has ended in
    /// `opened`: a handle on that file where a reader came back, and the
    /// very error, with no handle, where an error came back.
    pub open spec fn wraps(path: PathBuf, opened: Result<R, Error>, outcome: Result<Self, Error>) -> bool {
        match opened {
            Ok(_) => outcome matches Ok(handle) && handle@ == Target::File(path),
            Err(error) => outcome matches Err(same) && same == error,
        }
    }

    /// A handle on the standard input.
    pub fn stdin() -> (handle: Self)
        ensures
            handle@ == Target::Standard,
    {
        Input { inner: InputInner::Stdin }
    }

    /// Makes a handle of what opening the file at `path` has given: the
    /// reader goes behind a lock that all duplicates of the handle will
    /// share; an error is passed on as it is.
    pub fn from_opened(path: PathBuf, opened: Result<R, Error>) -> (outcome: Result<Self, Error>)
        ensures
            Self::wraps(path, opened, outcome),
    {
        match opened {
            Ok(reader) => {
                let path = Arc::new(path);
                let reader = Arc::new(Mutex::new(reader));
                Ok(Input { inner: InputInner::File { path, reader } })
            },
            Err(error) => Err(error),
        }
    }

    /// Opens the file at `path` with `opener`, at once, and makes a handle of
    /// the reader that comes back.
    ///
    /// `opener` is called exactly once, on `path`. If it fails, its error is
    /// returned and there is no handle.
    pub fn open<F>(path: PathBuf, opener: F) -> (outcome: Result<Self, Error>) where
        F: FnOnce(&PathBuf) -> Result<R, Error>,

        requires
            opener.requires((&path,)),
        ensures
            exists|opened: Result<R, Error>| #[trigger]
                opener.ensures((&path,), opened) && Self::wraps(path, opened, outcome),
    {
        let opened = opener(&path);
        Self::from_opened(path, opened)
    }

    /// Makes a handle from a command-line argument.
    ///
    /// The argument `-` gives the standard input, and `opener` is not called.
    /// Any other argument is the path of a file, which is opened with `opener`
    /// as [`Input::open`] does.
    pub fn from_str<F>(text: &str, opener: F) -> (outcome: Result<Self, Error>) where
        F: FnOnce(&PathBuf) -> Result<R, Error>,

        requires
            text@ != marker() ==> forall|path: PathBuf| opener.requires((&path,)),
        ensures
            text@ == marker() ==> (outcome matches Ok(handle) && handle@ is Standard
                && handle@.path() is None),
            text@ != marker() ==> exists|opened: Result<R, Error>| #[trigger]
                opener.ensures((&path_of(text@),), opened) && Self::wraps(
                    path_of(text@),
                    opened,
                    outcome,
                ),
    {
        match Target::from_argument(text) {
            Target::Standard => Ok(Self::stdin()),
            Target::File(path) => Self::open(path, opener),
        }
    }

    /// Whether this handle reads from the standard input.
    pub fn is_stdin(&self) -> (yes: bool)
        ensures
            yes == (self@ is Standard),
    {
        match &self.inner {
            InputInner::Stdin => true,
            InputInner::File { .. } => false,
        }
    }

    /// Whether this handle reads from a file.
    pub fn is_file(&self) -> (yes: bool)
        ensures
            yes == (self@ is File),
    {
        match &self.inner {
            InputInner::Stdin => false,
            InputInner::File { .. } => true,
        }
    }

    /// The path of the file that this handle reads from; `None` for the
    /// standard input.
    pub fn path(&self) -> (path: Option<&PathBuf>)
        ensures
            match path {
                Some(path) => self@.path() == Some(*path),
                None => self@.path() is None,
            },
    {
        match &self.inner {
            InputInner::Stdin => None,
            InputInner::File { path, .. } => Some(&**path),
        }
    }

    /// Locks the source and returns the guard; the lock is held until the
    /// guard is dropped.
    ///
    /// For the standard input this is the lock that the whole process
    /// shares. For a file it is the lock on the reader, which every duplicate
    /// of the handle competes for. The call waits while another holder
    /// has the lock, and it cannot fail: a lock that a panic has poisoned
    /// is taken all the same.
    ///
    /// A thread should hold one guard of a source at a time, counting the
    /// guards of all duplicates: the lock on a file is not reentrant, and a
    /// thread that asks for it twice waits for itself.
    pub fn lock(&self) -> (guard: LockedInput<'_, R>)
        ensures
            guard@ == self@,
    {
        let inner = match &self.inner {
            InputInner::Stdin => {
                let stream = acquire_stdin(&std::io::stdin());
                LockedInputInner::Stdin { stream }
            },
            InputInner::File { path, reader: file } => {
                let reader = lock(file);
                LockedInputInner::File { path: share(path), reader }
            },
        };
        LockedInput { inner }
    }
}

impl<R> Clone for Input<R> {
    /// Another handle on the same source. Nothing is opened: the duplicate
    /// holds the same path and the same shared reader as the handle it was
    /// made from.
    fn clone(&self) -> (duplicate: Self)
        ensures
            duplicate == *self,
    {
        match &self.inner {
            InputInner::Stdin => Input { inner: InputInner::Stdin },
            InputInner::File { path, reader } => Input {
                inner: InputInner::File { path: share(path), reader: share(reader) },
            },
        }
    }
}

/// A locked source. While it lives, no other guard of the same source does.
#[derive(Debug)]
#[verifier::reject_recursive_types(R)]
pub struct LockedInput<'a, R> {
    inner: LockedInputInner<'a, R>,
}

#[derive(Debug)]
#[verifier::reject_recursive_types(R)]
enum LockedInputInner<'a, R> {
    Stdin { stream: StdinLock<'static> },
    File { path: Arc<PathBuf>, reader: MutexGuard<'a, R> },
}

/// The stream behind a locked source, lent out for reading.
pub enum Reader<'g, R> {
    /// The locked standard input.
    Standard(&'g mut StdinLock<'static>),
    /// The reader over the file.
    File(&'g mut R),
}

impl<'a, R> View for LockedInput<'a, R> {
    type V = Target;

    closed spec fn view(&self) -> Target {
        match self.inner {
            LockedInputInner::Stdin { .. } => Target::Standard,
            LockedInputInner::File { path, .. } => Target::File(*path),
        }
    }
}

impl<'a, R> LockedInput<'a, R> {
    /// Whether this guard reads from the standard input.
    pub fn is_stdin(&self) -> (yes: bool)
        ensures
            yes == (self@ is Standard),
    {
        match &self.inner {
            LockedInputInner::Stdin { .. } => true,
            LockedInputInner::File { .. } => false,
        }
    }

    /// Whether this guard reads from a file.
    pub fn is_file(&self) -> (yes: bool)
        ensures
            yes == (self@ is File),
    {
        match &self.inner {
            LockedInputInner::Stdin { .. } => false,
            LockedInputInner::File { .. } => true,
        }
    }

    /// The path of the file that this guard reads from; `None` for the
    /// standard input.
    pub fn path(&self) -> (path: Option<&PathBuf>)
        ensures
            match path {
                Some(path) => self@.path() == Some(*path),
                None => self@.path() is None,
            },
    {
        match &self.inner {
            LockedInputInner::Stdin { .. } => None,
            LockedInputInner::File { path, .. } => Some(&**path),
        }
    }

    /// Lends out the stream to read from: the locked standard input, or the
    /// reader that the duplicates of the handle share. The guard stands for
    /// the same target afterwards, whatever is read.
    pub fn reader(&mut self) -> (reader: Reader<'_, R>)
        ensures
            reader is Standard <==> old(self)@ is Standard,
            final(self)@ == old(self)@,
    {
        match &mut self.inner {
            LockedInputInner::Stdin { stream } => Reader::Standard(stream),
            LockedInputInner::File { reader, .. } => Reader::File(guarded(reader)),
        }
    }
}

} // verus!
