//! Handles on a sink for bytes: the standard output, or a file that is
//! already open for writing.

use crate::assumed::acquire_stdout;
use crate::assumed::guarded;
use crate::assumed::path_of;
use crate::assumed::share;
use crate::sync::lock;
use crate::target::marker;
use crate::target::Target;
use std::io::Error;
use std::io::StdoutLock;
use std::path::PathBuf;
use std::sync::Arc;
use std::sync::Mutex;
use std::sync::MutexGuard;
use vstd::prelude::*;

verus! {

/// A sink for bytes: the standard output, or a file opened for writing.
///
/// `W` is the writer over the open file, as a rule one that buffers by the
/// line. A handle can be duplicated with `clone`: the duplicates of a file
/// handle share the one writer, so what they write goes to one file in the
/// order in which they took the lock, and none of them opens the file again.
/// The view of a handle is its [`Target`], which never changes.
#[derive(Debug)]
#[verifier::reject_recursive_types(W)]
pub struct Output<W> {
    inner: OutputInner<W>,
}

#[derive(Debug)]
#[verifier::reject_recursive_types(W)]
enum OutputInner<W> {
    Stdout,
    File { path: Arc<PathBuf>, writer: Arc<Mutex<W>> },
}

impl<W> View for Output<W> {
    type V = Target;

    closed spec fn view(&self) -> Target {
        match self.inner {
            OutputInner::Stdout => Target::Standard,
            OutputInner::File { path, .. } => Target::File(*path),
        }
    }
}

impl<W> Output<W> {
    /// What `outcome` must be when opening the file at `path` has ended in
    /// `opened`: a handle on that file where a writer came back, and the
    /// very error, with no handle, where an error came back.
    pub open spec fn wraps(path: PathBuf, opened: Result<W, Error>, outcome: Result<Self, Error>) -> bool {
        match opened {
            Ok(_) => outcome matches Ok(handle) && handle@ == Target::File(path),
            Err(error) => outcome matches Err(same) && same == error,
        }
    }

    /// A handle on the standard output.
    pub fn stdout() -> (handle: Self)
        ensures
            handle@ == Target::Standard,
    {
        Output { inner: OutputInner::Stdout }
    }

    /// Makes a handle of what opening the file at `path` has given: the
    /// writer goes behind a lock that all duplicates of the handle will
    /// share; an error is passed on as it is.
    pub fn from_opened(path: PathBuf, opened: Result<W, Error>) -> (outcome: Result<Self, Error>)
        ensures
            Self::wraps(path, opened, outcome),
    {
        match opened {
            Ok(writer) => {
                let path = Arc::new(path);
                let writer = Arc::new(Mutex::new(writer));
                Ok(Output { inner: OutputInner::File { path, writer } })
            },
            Err(error) => Err(error),
        }
    }

    /// Opens the file at `path` with `opener`, at once, and makes a handle of
    /// the writer that comes back.
    ///
    /// `opener` is called exactly once, on `path`; it is the one to create
    /// the file or to empty it. If it fails, its error is returned and there
    /// is no handle.
    pub fn open<F>(path: PathBuf, opener: F) -> (outcome: Result<Self, Error>) where
        F: FnOnce(&PathBuf) -> Result<W, Error>,

        requires
            opener.requires((&path,)),
        ensures
            exists|opened: Result<W, Error>| #[trigger]
                opener.ensures((&path,), opened) && Self::wraps(path, opened, outcome),
    {
        let opened = opener(&path);
        Self::from_opened(path, opened)
    }

    /// Makes a handle from a command-line argument.
    ///
    /// The argument `-` gives the standard output, and `opener` is not
    /// called. Any other argument is the path of a file, which is opened with
    /// `opener` as [`Output::open`] does.
    pub fn from_str<F>(text: &str, opener: F) -> (outcome: Result<Self, Error>) where
        F: FnOnce(&PathBuf) -> Result<W, Error>,

        requires
            text@ != marker() ==> forall|path: PathBuf| opener.requires((&path,)),
        ensures
            text@ == marker() ==> (outcome matches Ok(handle) && handle@ is Standard
                && handle@.path() is None),
            text@ != marker() ==> exists|opened: Result<W, Error>| #[trigger]
                opener.ensures((&path_of(text@),), opened) && Self::wraps(
                    path_of(text@),
                    opened,
                    outcome,
                ),
    {
        match Target::from_argument(text) {
            Target::Standard => Ok(Self::stdout()),
            Target::File(path) => Self::open(path, opener),
        }
    }

    /// Whether this handle writes to the standard output.
    pub fn is_stdout(&self) -> (yes: bool)
        ensures
            yes == (self@ is Standard),
    {
        match &self.inner {
            OutputInner::Stdout => true,
            OutputInner::File { .. } => false,
        }
    }

    /// Whether this handle writes to a file.
    pub fn is_file(&self) -> (yes: bool)
        ensures
            yes == (self@ is File),
    {
        match &self.inner {
            OutputInner::Stdout => false,
            OutputInner::File { .. } => true,
        }
    }

    /// The path of the file that this handle writes to; `None` for the
    /// standard output.
    pub fn path(&self) -> (path: Option<&PathBuf>)
        ensures
            match path {
                Some(path) => self@.path() == Some(*path),
                None => self@.path() is None,
            },
    {
        match &self.inner {
            OutputInner::Stdout => None,
            OutputInner::File { path, .. } => Some(&**path),
        }
    }

    /// Locks the sink and returns the guard; the lock is held until the
    /// guard is dropped.
    ///
    /// For the standard output this is the lock that the whole process
    /// shares. For a file it is the lock on the writer, which every duplicate
    /// of the handle competes for. The call waits while another holder
    /// has the lock, and it cannot fail: a lock that a panic has poisoned
    /// is taken all the same.
    ///
    /// A thread should hold one guard of a sink at a time, counting the
    /// guards of all duplicates: the lock on a file is not reentrant, and a
    /// thread that asks for it twice waits for itself.
    pub fn lock(&self) -> (guard: LockedOutput<'_, W>)
        ensures
            guard@ == self@,
    {
        let inner = match &self.inner {
            OutputInner::Stdout => {
                let stream = acquire_stdout(&std::io::stdout());
                LockedOutputInner::Stdout { stream }
            },
            OutputInner::File { path, writer: file } => {
                let writer = lock(file);
                LockedOutputInner::File { path: share(path), writer }
            },
        };
        LockedOutput { inner }
    }
}

impl<W> Clone for Output<W> {
    /// Another handle on the same sink. Nothing is opened: the duplicate
    /// holds the same path and the same shared writer as the handle it was
    /// made from.
    fn clone(&self) -> (duplicate: Self)
        ensures
            duplicate == *self,
    {
        match &self.inner {
            OutputInner::Stdout => Output { inner: OutputInner::Stdout },
            OutputInner::File { path, writer } => Output {
                inner: OutputInner::File { path: share(path), writer: share(writer) },
            },
        }
    }
}

/// A locked sink. While it lives, no other guard of the same sink does.
#[derive(Debug)]
#[verifier::reject_recursive_types(W)]
pub struct LockedOutput<'a, W> {
    inner: LockedOutputInner<'a, W>,
}

#[derive(Debug)]
#[verifier::reject_recursive_types(W)]
enum LockedOutputInner<'a, W> {
    Stdout { stream: StdoutLock<'static> },
    File { path: Arc<PathBuf>, writer: MutexGuard<'a, W> },
}

/// The stream behind a locked sink, lent out for writing.
pub enum Writer<'g, W> {
    /// The locked standard output.
    Standard(&'g mut StdoutLock<'static>),
    /// The writer over the file.
    File(&'g mut W),
}

impl<'a, W> View for LockedOutput<'a, W> {
    type V = Target;

    closed spec fn view(&self) -> Target {
        match self.inner {
            LockedOutputInner::Stdout { .. } => Target::Standard,
            LockedOutputInner::File { path, .. } => Target::File(*path),
        }
    }
}

impl<'a, W> LockedOutput<'a, W> {
    /// Whether this guard is on the standard stream, here the standard
    /// output. The guard of a source has a method of this name too, so code
    /// that asks either guard reads the same.
    pub fn is_stdin(&self) -> (yes: bool)
        ensures
            yes == (self@ is Standard),
    {
        match &self.inner {
            LockedOutputInner::Stdout { .. } => true,
            LockedOutputInner::File { .. } => false,
        }
    }

    /// Whether this guard writes to a file.
    pub fn is_file(&self) -> (yes: bool)
        ensures
            yes == (self@ is File),
    {
        match &self.inner {
            LockedOutputInner::Stdout { .. } => false,
            LockedOutputInner::File { .. } => true,
        }
    }

    /// The path of the file that this guard writes to; `None` for the
    /// standard output.
    pub fn path(&self) -> (path: Option<&PathBuf>)
        ensures
            match path {
                Some(path) => self@.path() == Some(*path),
                None => self@.path() is None,
            },
    {
        match &self.inner {
            LockedOutputInner::Stdout { .. } => None,
            LockedOutputInner::File { path, .. } => Some(&**path),
        }
    }

    /// Lends out the stream to write to: the locked standard output, or the
    /// writer that the duplicates of the handle share. The guard stands for
    /// the same target afterwards, whatever is written.
    pub fn writer(&mut self) -> (writer: Writer<'_, W>)
        ensures
            writer is Standard <==> old(self)@ is Standard,
            final(self)@ == old(self)@,
    {
        match &mut self.inner {
            LockedOutputInner::Stdout { stream } => Writer::Standard(stream),
            LockedOutputInner::File { writer, .. } => Writer::File(guarded(writer)),
        }
    }
}

} // verus!
