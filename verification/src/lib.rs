//! Handles that let a program treat "a file path or the standard stream" as
//! one value.
//!
//! A handle is made once, from a command-line argument or by naming its
//! target outright, and may then be duplicated freely: every duplicate of a
//! file handle shares the one reader or writer that was opened for it, behind
//! a lock. Locking a handle gives a guard, and the guard gives exclusive
//! access to the stream until it is dropped.
//!
//! The crate opens nothing and moves no bytes itself. Whoever makes a handle
//! passes in the function that opens the file, and whoever holds a guard reads
//! or writes through the stream that the guard lends out. What is proved here
//! is the bookkeeping around those streams: which target an argument names,
//! which target a handle and its guards stand for, that an error from opening
//! comes back untouched and leaves no handle behind, and that locking cannot
//! fail, not even on a poisoned lock.

pub mod assumed;
pub mod input;
pub mod output;
pub mod sync;
pub mod target;

pub use input::Input;
pub use input::LockedInput;
pub use input::Reader;
pub use output::LockedOutput;
pub use output::Output;
pub use output::Writer;
pub use sync::lock;
pub use sync::recover;
pub use target::Target;
