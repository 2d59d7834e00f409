//! Errors from installing and removing the window-event hooks.

use vstd::prelude::*;

verus! {

/// Why the foreground-window event hook could not be installed or removed.
#[derive(Debug, Clone, Copy, PartialEq, Eq, Structural)]
pub enum ForegroundHookError {
    UnsuccessfulHook,
    UnsuccessfulUnhook,
}

/// Why the minimize-end event hook could not be installed or removed.
#[derive(Debug, Clone, Copy, PartialEq, Eq, Structural)]
pub enum MinimizeEndHookError {
    UnsuccessfulHook,
    UnsuccessfulUnhook,
}

/// The text that describes a hook error.
pub open spec fn spec_hook_error_message(unhook: bool) -> Seq<char> {
    if unhook {
        "error removing event hook"@
    } else {
        "error setting event hook"@
    }
}

impl ForegroundHookError {
    /// The text that describes this error.
    pub fn message(&self) -> (text: &'static str)
        ensures
            text@ == spec_hook_error_message(*self == ForegroundHookError::UnsuccessfulUnhook),
    {
        match self {
            ForegroundHookError::UnsuccessfulHook => "error setting event hook",
            ForegroundHookError::UnsuccessfulUnhook => "error removing event hook",
        }
    }
}

impl MinimizeEndHookError {
    /// The text that describes this error.
    pub fn message(&self) -> (text: &'static str)
        ensures
            text@ == spec_hook_error_message(*self == MinimizeEndHookError::UnsuccessfulUnhook),
    {
        match self {
            MinimizeEndHookError::UnsuccessfulHook => "error setting event hook",
            MinimizeEndHookError::UnsuccessfulUnhook => "error removing event hook",
        }
    }
}

} // verus!
