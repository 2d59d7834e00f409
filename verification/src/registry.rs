//! Whether Reemap starts when the user logs in.
//!
//! Reemap is installed per user, so the setting lives in the current user's `Run` key,
//! under one value whose name is `REEMAP_RUN_VALUE_NAME` and whose data is the command line
//! that starts Reemap in the background. Reading and writing the registry happens outside
//! this crate; the functions here decide what to write and interpret what was read.

use vstd::prelude::*;

verus! {

/// The registry key that lists what runs at login, under the current user.
pub const RUN_KEY_PATH: &'static str = "SOFTWARE\\Microsoft\\Windows\\CurrentVersion\\Run";

/// The name of Reemap's value in the `Run` key.
pub const REEMAP_RUN_VALUE_NAME: &'static str = "ReemapAutoLaunch_e4e2530c-65ff-4fbb-929d-1b256be9148e";

/// What went wrong while changing the run-on-login setting. Errors from the operating
/// system carry their message.
#[derive(Debug, Clone, PartialEq, Eq)]
pub enum RegistryResult {
    ExePathIOError(String),
    ExePathUTF8Error,
    WinRegError(String),
}

impl RegistryResult {
    /// The text that describes this error.
    pub open spec fn spec_message(&self) -> Seq<char> {
        match self {
            RegistryResult::ExePathIOError(e) => "error determining executable path: "@ + e@,
            RegistryResult::ExePathUTF8Error => "executable path contained invalid UTF-8"@,
            RegistryResult::WinRegError(e) => "error modifying registry key: "@ + e@,
        }
    }

    /// The text that describes this error.
    pub fn message(&self) -> (text: String)
        ensures
            text@ == self.spec_message(),
    {
        match self {
            RegistryResult::ExePathIOError(e) => {
                let mut text = String::from_str("error determining executable path: ");
                text.append(e.as_str());
                text
            },
            RegistryResult::ExePathUTF8Error => String::from_str(
                "executable path contained invalid UTF-8",
            ),
            RegistryResult::WinRegError(e) => {
                let mut text = String::from_str("error modifying registry key: ");
                text.append(e.as_str());
                text
            },
        }
    }
}

/// What to do to the registry.
#[derive(Debug, Clone, Copy, PartialEq, Eq, Structural)]
pub enum RegistryAction {
    /// Write Reemap's value, replacing any earlier one.
    Register,
    /// Remove Reemap's value if it is there.
    Unregister,
}

/// Sets whether Reemap runs on login: registering when `run` holds, unregistering otherwise.
pub fn run_on_login(run: bool) -> (action: RegistryAction)
    ensures
        action == if run {
            RegistryAction::Register
        } else {
            RegistryAction::Unregister
        },
{
    if run {
        RegistryAction::Register
    } else {
        RegistryAction::Unregister
    }
}

/// The command line written to the registry: the executable's path, then the flag that
/// starts Reemap in the background. `None` stands for a path that is not valid UTF-8.
pub fn run_command_line(exe_path: Option<&str>) -> (line: Result<String, RegistryResult>)
    ensures
        match exe_path {
            Some(path) => line matches Ok(l) && l@ == path@ + " --background"@,
            None => line == Err::<String, RegistryResult>(RegistryResult::ExePathUTF8Error),
        },
{
    match exe_path {
        Some(path) => {
            let mut line = String::from_str(path);
            line.append(" --background");
            Ok(line)
        },
        None => Err(RegistryResult::ExePathUTF8Error),
    }
}

/// Whether the names of the values in the `Run` key include Reemap's.
pub fn is_registered(names: &Vec<String>) -> (registered: bool)
    ensures
        registered == exists|i: int| 0 <= i < names@.len() && #[trigger] names@[i]@ == REEMAP_RUN_VALUE_NAME@,
{
    let target = String::from_str(REEMAP_RUN_VALUE_NAME);
    let mut i: usize = 0;
    while i < names.len()
        invariant
            i <= names@.len(),
            target@ == REEMAP_RUN_VALUE_NAME@,
            forall|j: int| 0 <= j < i ==> #[trigger] names@[j]@ != REEMAP_RUN_VALUE_NAME@,
        decreases names@.len() - i,
    {
        if names[i] == target {
            return true;
        }
        i = i + 1;
    }
    false
}

} // verus!
