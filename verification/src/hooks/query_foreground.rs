//! A description of the foreground window by its title and its process only.

use vstd::prelude::*;

verus! {

/// The foreground window's title and the file name of its process.
#[derive(Debug, PartialEq, Eq, PartialOrd, Ord, Hash)]
pub struct ForegroundWindowInfo {
    pub title: String,
    pub process: String,
}

impl Clone for ForegroundWindowInfo {
    fn clone(&self) -> (copy: Self)
        ensures
            copy == *self,
    {
        ForegroundWindowInfo { title: self.title.clone(), process: self.process.clone() }
    }
}

/// Why the foreground window could not be described.
#[derive(Debug, Clone, Copy, PartialEq, Eq, Structural)]
pub enum ForegroundWindowError {
    InvalidHWND,
    NegativeTextLen(i32),
    OpenProcessError,
    QueryProcessError,
    ExtractFilenameError,
}

} // verus!
