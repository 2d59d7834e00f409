//! What Reemap learns about a window: its title, its process, and where it is on screen.

use vstd::prelude::*;

verus! {

/// A window's bounds in screen coordinates.
#[derive(Debug, Clone, Copy, PartialEq, Eq, PartialOrd, Ord, Hash, Structural)]
pub struct Rect {
    pub left: i32,
    pub top: i32,
    pub right: i32,
    pub bottom: i32,
}

/// A window's title, the file name of its process, and its bounds if they could be read.
#[derive(Debug, PartialEq, Eq)]
pub struct WindowInfo {
    pub title: String,
    pub process: String,
    pub rect: Option<Rect>,
}

impl Clone for WindowInfo {
    fn clone(&self) -> (copy: Self)
        ensures
            copy == *self,
    {
        WindowInfo { title: self.title.clone(), process: self.process.clone(), rect: self.rect }
    }
}

/// Why information about a window could not be read.
#[derive(Debug, Clone, Copy, PartialEq, Eq, Structural)]
pub enum WindowError {
    InvalidHWND,
    NegativeTextLen(i32),
    OpenProcessError,
    QueryProcessError,
    ExtractFilenameError,
}

/// The number of UTF-16 units of the buffers that receive a window's title and its
/// process's path.
pub const TEXT_CAP: usize = 512;

/// How many UTF-16 units of a window title are read when the system reports its length as
/// `len`: a negative length is an error; otherwise at most one less than the buffer holds.
pub fn title_units_read(len: i32) -> (read: Result<usize, WindowError>)
    ensures
        len < 0 ==> read == Err::<usize, WindowError>(WindowError::NegativeTextLen(len)),
        len >= 0 ==> read == Ok::<usize, WindowError>(
            if len < TEXT_CAP - 1 {
                len as usize
            } else {
                (TEXT_CAP - 1) as usize
            },
        ),
{
    if len < 0 {
        Err(WindowError::NegativeTextLen(len))
    } else {
        Ok(path_units_read(len as u32))
    }
}

/// How many UTF-16 units of a process path are read when the system reports its length as
/// `len`: at most one less than the buffer holds.
pub fn path_units_read(len: u32) -> (read: usize)
    ensures
        read == if len < TEXT_CAP - 1 {
            len as usize
        } else {
            (TEXT_CAP - 1) as usize
        },
{
    let len: usize = len as usize;
    if len < TEXT_CAP - 1 {
        len
    } else {
        TEXT_CAP - 1
    }
}

impl WindowInfo {
    /// What Reemap reports about its own window, whose title it must not ask for: asking a
    /// window of the calling process for its text waits on that process's message loop.
    pub fn reemap_window() -> (info: WindowInfo)
        ensures
            info.title@ == "Reemap"@,
            info.process@ == "reemap.exe"@,
            info.rect is None,
    {
        WindowInfo {
            title: String::from_str("Reemap"),
            process: String::from_str("reemap.exe"),
            rect: None,
        }
    }

    /// Whether this window is listed among the open windows: every visible window is,
    /// whatever its title.
    pub open spec fn spec_listed(&self, visible: bool) -> bool {
        visible
    }

    /// Whether this window is listed among the open windows: every visible window is.
    pub fn listed(&self, visible: bool) -> (listed: bool)
        ensures
            listed == self.spec_listed(visible),
    {
        visible
    }
}

} // verus!
