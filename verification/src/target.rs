//! What a handle stands for, and how an argument names it.

use crate::assumed::path_from_text;
use crate::assumed::path_of;
use std::path::PathBuf;
use vstd::prelude::*;
use vstd::string::*;

verus! {

/// The target of a handle: the standard stream of the process, or the file
/// at a path.
#[derive(Debug, PartialEq, Eq)]
pub enum Target {
    /// The standard input, for a source; the standard output, for a sink.
    Standard,
    /// The file at this path.
    File(PathBuf),
}

/// The one argument that names the standard stream: a single hyphen.
pub open spec fn marker() -> Seq<char> {
    seq!['-']
}

/// The target that an argument names: the standard stream for the marker,
/// and for every other text the file at the path made of that text.
pub open spec fn named_by(text: Seq<char>) -> Target {
    if text == marker() {
        Target::Standard
    } else {
        Target::File(path_of(text))
    }
}

impl Target {
    /// The path of a file target; a standard stream has none.
    pub open spec fn path(self) -> Option<PathBuf> {
        match self {
            Target::Standard => None,
            Target::File(path) => Some(path),
        }
    }

    /// Reads an argument: `-` names the standard stream, anything else is
    /// taken as the path of a file. Nothing is opened or looked up, so every
    /// text names a target.
    pub fn from_argument(text: &str) -> (target: Target)
        ensures
            target == named_by(text@),
    {
        if text.unicode_len() == 1 && text.get_char(0) == '-' {
            assert(text@ =~= marker());
            Target::Standard
        } else {
            Target::File(path_from_text(text))
        }
    }
}

/// A target is the standard stream or a file, never both, and it has a path
/// exactly when it is a file.
pub proof fn lemma_target_is_one_kind(target: Target)
    ensures
        target is Standard <==> !(target is File),
        target.path() is Some <==> target is File,
        target is File ==> target == Target::File(target.path()->Some_0),
{
}

/// The marker names the standard stream, which has no path.
pub proof fn lemma_marker_names_standard()
    ensures
        named_by(marker()) is Standard,
        named_by(marker()).path() is None,
{
}

/// Every argument but the marker names a file, and the path of that file is
/// the argument.
pub proof fn lemma_other_text_names_file(text: Seq<char>)
    requires
        text != marker(),
    ensures
        named_by(text) is File,
        named_by(text).path() == Some(path_of(text)),
{
}

} // verus!
