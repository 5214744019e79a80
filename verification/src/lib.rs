//! Where a program keeps its files, by the XDG Base Directory convention.
//!
//! A directory of the convention is taken from a variable of the environment
//! when that variable holds an absolute path, and is otherwise a fixed place
//! below the user's home directory. [`base_strategy::Xdg`] resolves the
//! directories themselves; [`app_strategy::Xdg`] places one application below
//! them.
//!
//! Nothing here touches the process or the file system. A caller hands in the
//! home directory and a snapshot of the environment, and gets paths back.
//! Paths are POSIX paths held as text: `/` separates the segments, and a path
//! is absolute when it starts with `/`.

use vstd::prelude::*;

pub mod app_strategy;
pub mod base_strategy;
pub mod environment;
pub mod path;

verus! {

/// The home directory of the user could not be determined.
#[derive(Debug, Clone, Copy, PartialEq, Eq, Hash)]
pub struct HomeDirError;

impl HomeDirError {
    /// The text that describes the failure.
    pub fn message(&self) -> (text: String)
        ensures
            text@ == "could not locate home directory"@,
    {
        "could not locate home directory".to_owned()
    }
}

} // verus!
