//! Decisions of the user interface: window title, repaint requests, menus and dialogs.

pub mod reemapp;
pub mod search;

use crate::buttons::Button;
use vstd::prelude::*;

verus! {

/// What the application learns from outside the user interface between frames.
#[derive(Debug, Clone, Copy, PartialEq, Eq, Structural)]
pub struct TrayAppCtx {
    /// The button the user pressed last, while the user interface was observing inputs.
    pub last_pressed_button: Option<Button>,
}

impl Default for TrayAppCtx {
    fn default() -> (ctx: Self)
        ensures
            ctx.last_pressed_button is None,
    {
        TrayAppCtx { last_pressed_button: None }
    }
}

/// The window title: the active profile's name before the application's, or the
/// application's name alone when no profile is active.
pub open spec fn spec_window_title(profile_name: Option<Seq<char>>) -> Seq<char> {
    match profile_name {
        Some(name) => name + " - Reemap"@,
        None => "Reemap"@,
    }
}

/// The window title for the active profile.
pub fn window_title(profile_name: Option<String>) -> (title: String)
    ensures
        title@ == spec_window_title(
            match profile_name {
                Some(name) => Some(name@),
                None => None,
            },
        ),
{
    match profile_name {
        Some(name) => {
            let mut title = name;
            title.append(" - Reemap");
            title
        },
        None => String::from_str("Reemap"),
    }
}

/// Whether a repaint request made during pass `cumulative_pass_nr` still matters when the
/// user interface is at pass `current_pass_nr`: it does for the same pass and the next one.
pub fn repaint_request_is_current(current_pass_nr: u64, cumulative_pass_nr: u64) -> (current: bool)
    requires
        cumulative_pass_nr < u64::MAX,
    ensures
        current == (current_pass_nr == cumulative_pass_nr || current_pass_nr == cumulative_pass_nr
            + 1),
{
    current_pass_nr == cumulative_pass_nr || current_pass_nr == cumulative_pass_nr + 1
}

/// The pending repaint after the user interface asked, during pass `cumulative_pass_nr`,
/// for a repaint at time `when`: the request replaces the pending one when it is current
/// (see `repaint_request_is_current`), and is dropped otherwise.
pub fn request_repaint(
    next_repaint: Option<u64>,
    when: u64,
    current_pass_nr: u64,
    cumulative_pass_nr: u64,
) -> (next: Option<u64>)
    requires
        cumulative_pass_nr < u64::MAX,
    ensures
        next == if current_pass_nr == cumulative_pass_nr || current_pass_nr == cumulative_pass_nr
            + 1 {
            Some(when)
        } else {
            next_repaint
        },
{
    if repaint_request_is_current(current_pass_nr, cumulative_pass_nr) {
        Some(when)
    } else {
        next_repaint
    }
}

/// The identifier of the tray menu entry that opens the configuration window.
pub const MENU_ID_CONFIGURE: &'static str = "MENU_ID_CONFIGURE";

/// The identifier of the tray menu entry that ends Reemap.
pub const MENU_ID_EXIT: &'static str = "MENU_ID_EXIT";

/// The entries of the tray icon's menu.
#[derive(Debug, Clone, Copy, PartialEq, Eq, Structural)]
pub enum TrayMenuChoice {
    /// Show the configuration window.
    Configure,
    /// End Reemap.
    Exit,
}

/// The tray menu entry with this identifier, if it is one of Reemap's.
pub fn tray_menu_choice(id: &str) -> (choice: Option<TrayMenuChoice>)
    ensures
        choice == if id@ == MENU_ID_CONFIGURE@ {
            Some(TrayMenuChoice::Configure)
        } else if id@ == MENU_ID_EXIT@ {
            Some(TrayMenuChoice::Exit)
        } else {
            None::<TrayMenuChoice>
        },
{
    let id = String::from_str(id);
    if id == String::from_str(MENU_ID_CONFIGURE) {
        Some(TrayMenuChoice::Configure)
    } else if id == String::from_str(MENU_ID_EXIT) {
        Some(TrayMenuChoice::Exit)
    } else {
        None
    }
}

/// How the window's event loop waits for the next event.
#[derive(Debug, Clone, Copy, PartialEq, Eq, Structural)]
pub enum WaitMode {
    /// Do not wait: run again at once.
    Poll,
    /// Wait for an event, but no later than this time.
    WaitUntil(u64),
    /// Wait for the next event, however long it takes.
    Wait,
}

/// What one repaint check decides. Times are counted in the event loop's ticks from a fixed
/// starting point.
#[derive(Debug, Clone, Copy, PartialEq, Eq, Structural)]
pub struct RepaintCheck {
    /// How to wait afterwards.
    pub wait: WaitMode,
    /// Whether to ask the window to redraw now.
    pub redraw: bool,
    /// The repaint still pending after the check.
    pub next_repaint: Option<u64>,
}

/// What a repaint check at time `now` decides about the pending repaint `next_repaint`:
/// when it is due, redraw at once if the window exists (the pending repaint is then done) and
/// stop waiting; when it lies ahead, wait until then; when there is none, wait for events.
pub open spec fn spec_repaint_check(now: u64, next_repaint: Option<u64>, window_open: bool) -> RepaintCheck {
    match next_repaint {
        Some(time) => if now > time {
            RepaintCheck {
                wait: WaitMode::Poll,
                redraw: window_open,
                next_repaint: if window_open {
                    None
                } else {
                    next_repaint
                },
            }
        } else {
            RepaintCheck { wait: WaitMode::WaitUntil(time), redraw: false, next_repaint }
        },
        None => RepaintCheck { wait: WaitMode::Wait, redraw: false, next_repaint: None },
    }
}

/// Decides what to do about the pending repaint at time `now`.
pub fn check_repaint_time(now: u64, next_repaint: Option<u64>, window_open: bool) -> (check: RepaintCheck)
    ensures
        check == spec_repaint_check(now, next_repaint, window_open),
{
    match next_repaint {
        Some(time) => {
            if now > time {
                if window_open {
                    RepaintCheck { wait: WaitMode::Poll, redraw: true, next_repaint: None }
                } else {
                    RepaintCheck { wait: WaitMode::Poll, redraw: false, next_repaint }
                }
            } else {
                RepaintCheck { wait: WaitMode::WaitUntil(time), redraw: false, next_repaint }
            }
        },
        None => RepaintCheck { wait: WaitMode::Wait, redraw: false, next_repaint: None },
    }
}

/// A requested repaint is drawn once: after a check that redraws, later checks neither
/// redraw nor stop waiting until a new repaint is requested.
pub proof fn lemma_repaint_drawn_once(now: u64, next_repaint: Option<u64>, window_open: bool, later: u64, open_later: bool)
    requires
        spec_repaint_check(now, next_repaint, window_open).redraw,
    ensures
        ({
            let after = spec_repaint_check(now, next_repaint, window_open).next_repaint;
            let again = spec_repaint_check(later, after, open_later);
            &&& !again.redraw
            &&& again.wait == WaitMode::Wait
        }),
{
}

} // verus!
