//! The hook thread's state, and the decisions it makes when the configuration or the
//! foreground window changes.

pub mod errors;
pub mod query_foreground;

use crate::button_map::ButtonMap;
use crate::buttons::{Button, HoldButton, BUTTON_COUNT};
use crate::config::{Config, Profile, ProfileCondition, ProfileConditionView, ProfileView};
use crate::output::{flag_items, output_items, LayerFlags, Output};
use crate::query_windows::{Rect, WindowError, WindowInfo};
use vstd::prelude::*;

verus! {

/// The messages other threads post to the hook thread.
#[derive(Debug, Clone, Copy, PartialEq, Eq, PartialOrd, Ord, Hash, Structural)]
pub enum HookMessage {
    /// The periodic timer fired: check the foreground window.
    TimerExpire,
    /// Remove the hooks and stop.
    Quit,
    /// A new configuration is ready.
    Update,
    /// The foreground window may have changed.
    CheckForeground,
    /// The user interface wants to hear about pressed buttons.
    RegisterUIObserveInputs,
    /// The user interface no longer wants to hear about pressed buttons.
    UnregisterUIObserveInputs,
}

/// The message number Windows gives a timer expiry (`WM_TIMER`).
pub const WM_TIMER: u32 = 0x0113;

/// The first message number applications may use for their own messages (`WM_APP`).
pub const WM_APP: u32 = 0x8000;

impl HookMessage {
    /// The message number under which the message is posted to the hook thread: the timer's
    /// own number, and consecutive numbers from `WM_APP` on for the others.
    pub open spec fn spec_number(self) -> u32 {
        match self {
            HookMessage::TimerExpire => WM_TIMER,
            HookMessage::Quit => WM_APP,
            HookMessage::Update => 0x8001,
            HookMessage::CheckForeground => 0x8002,
            HookMessage::RegisterUIObserveInputs => 0x8003,
            HookMessage::UnregisterUIObserveInputs => 0x8004,
        }
    }

    /// The message with this number, if it is one of the hook thread's.
    pub open spec fn spec_from_number(number: u32) -> Option<HookMessage> {
        if number == WM_TIMER {
            Some(HookMessage::TimerExpire)
        } else if number == WM_APP {
            Some(HookMessage::Quit)
        } else if number == 0x8001 {
            Some(HookMessage::Update)
        } else if number == 0x8002 {
            Some(HookMessage::CheckForeground)
        } else if number == 0x8003 {
            Some(HookMessage::RegisterUIObserveInputs)
        } else if number == 0x8004 {
            Some(HookMessage::UnregisterUIObserveInputs)
        } else {
            None
        }
    }

    /// The message number under which the message is posted.
    pub fn to_u32(self) -> (number: u32)
        ensures
            number == self.spec_number(),
    {
        match self {
            HookMessage::TimerExpire => WM_TIMER,
            HookMessage::Quit => WM_APP,
            HookMessage::Update => WM_APP + 1,
            HookMessage::CheckForeground => WM_APP + 2,
            HookMessage::RegisterUIObserveInputs => WM_APP + 3,
            HookMessage::UnregisterUIObserveInputs => WM_APP + 4,
        }
    }

    /// The message a received number stands for; `None` for messages that are not the hook
    /// thread's own, which go to the default processing.
    pub fn from_u32(number: u32) -> (message: Option<HookMessage>)
        ensures
            message == Self::spec_from_number(number),
    {
        if number == WM_TIMER {
            Some(HookMessage::TimerExpire)
        } else if number == WM_APP {
            Some(HookMessage::Quit)
        } else if number == WM_APP + 1 {
            Some(HookMessage::Update)
        } else if number == WM_APP + 2 {
            Some(HookMessage::CheckForeground)
        } else if number == WM_APP + 3 {
            Some(HookMessage::RegisterUIObserveInputs)
        } else if number == WM_APP + 4 {
            Some(HookMessage::UnregisterUIObserveInputs)
        } else {
            None
        }
    }
}

/// What the hook thread's message loop does with one received message.
#[derive(Debug, Clone, Copy, PartialEq, Eq, Structural)]
pub enum HookLoopStep {
    /// Remove the event hooks and end the loop.
    Quit,
    /// Switch to the configuration posted with the message.
    ApplyConfig,
    /// Read the foreground window and check it (`HookLocalData::check_foreground`).
    CheckForeground,
    /// Start or stop telling the user interface about pressed buttons.
    SetUiObserving(bool),
    /// Not one of the hook thread's messages: hand it to the default processing.
    Dispatch,
}

/// The step for a received message number: a timer expiry and a foreground change both lead
/// to a foreground check.
pub open spec fn spec_loop_step(number: u32) -> HookLoopStep {
    match HookMessage::spec_from_number(number) {
        Some(HookMessage::Quit) => HookLoopStep::Quit,
        Some(HookMessage::Update) => HookLoopStep::ApplyConfig,
        Some(HookMessage::TimerExpire) => HookLoopStep::CheckForeground,
        Some(HookMessage::CheckForeground) => HookLoopStep::CheckForeground,
        Some(HookMessage::RegisterUIObserveInputs) => HookLoopStep::SetUiObserving(true),
        Some(HookMessage::UnregisterUIObserveInputs) => HookLoopStep::SetUiObserving(false),
        None => HookLoopStep::Dispatch,
    }
}

/// What the message loop does with the message numbered `number`.
pub fn loop_step(number: u32) -> (step: HookLoopStep)
    ensures
        step == spec_loop_step(number),
{
    match HookMessage::from_u32(number) {
        Some(HookMessage::Quit) => HookLoopStep::Quit,
        Some(HookMessage::Update) => HookLoopStep::ApplyConfig,
        Some(HookMessage::TimerExpire) | Some(HookMessage::CheckForeground) =>
            HookLoopStep::CheckForeground,
        Some(HookMessage::RegisterUIObserveInputs) => HookLoopStep::SetUiObserving(true),
        Some(HookMessage::UnregisterUIObserveInputs) => HookLoopStep::SetUiObserving(false),
        None => HookLoopStep::Dispatch,
    }
}

/// What the hook thread undoes as it stops.
#[derive(Debug, Clone, Copy, PartialEq, Eq, Structural)]
pub enum CleanupAction {
    /// Remove the foreground-window event hook.
    RemoveForegroundHook,
    /// Remove the minimize-end event hook.
    RemoveMinimizeEndHook,
    /// Stop the timer that polls the foreground window.
    KillTimer,
    /// Let the cursor leave any rectangle it was confined to.
    ReleaseCursorClip,
}

/// The cleanup on `Quit`, in the order it is done: both event hooks are removed, then the
/// timer is stopped and the cursor released.
pub open spec fn spec_quit_cleanup() -> Seq<CleanupAction> {
    seq![
        CleanupAction::RemoveForegroundHook,
        CleanupAction::RemoveMinimizeEndHook,
        CleanupAction::KillTimer,
        CleanupAction::ReleaseCursorClip,
    ]
}

/// A posted message is read back as the message that was posted, and a number is read as a
/// message only if that message is posted under it: no two messages share a number.
pub proof fn lemma_message_number_roundtrip(message: HookMessage, number: u32)
    ensures
        HookMessage::spec_from_number(message.spec_number()) == Some(message),
        HookMessage::spec_from_number(number) matches Some(m) ==> m.spec_number() == number,
{
}

/// A message the user interface posts is handled as what it asks for: `Update` applies the
/// posted configuration, `CheckForeground` and the timer check the foreground window,
/// `Quit` ends the loop, and the two observe messages turn the observing on and off.
pub proof fn lemma_posted_message_step(message: HookMessage)
    ensures
        spec_loop_step(message.spec_number()) == match message {
            HookMessage::Quit => HookLoopStep::Quit,
            HookMessage::Update => HookLoopStep::ApplyConfig,
            HookMessage::TimerExpire => HookLoopStep::CheckForeground,
            HookMessage::CheckForeground => HookLoopStep::CheckForeground,
            HookMessage::RegisterUIObserveInputs => HookLoopStep::SetUiObserving(true),
            HookMessage::UnregisterUIObserveInputs => HookLoopStep::SetUiObserving(false),
        },
{
}

// -------------------- HoldButtonState --------------------

/// What the hook thread remembers about a hold button between its press and its release.
#[derive(Debug, PartialEq, Eq, PartialOrd, Ord)]
pub enum HoldButtonState {
    NotHeld,
    HeldNoRemap,
    HeldWithRemap(Output),
}

impl Default for HoldButtonState {
    fn default() -> (state: Self)
        ensures
            state == HoldButtonState::NotHeld,
    {
        HoldButtonState::NotHeld
    }
}

impl Clone for HoldButtonState {
    fn clone(&self) -> (copy: Self)
        ensures
            match (self, copy) {
                (HoldButtonState::HeldWithRemap(a), HoldButtonState::HeldWithRemap(b)) =>
                    output_items(*a) == output_items(b),
                _ => copy == *self,
            },
    {
        match self {
            HoldButtonState::NotHeld => HoldButtonState::NotHeld,
            HoldButtonState::HeldNoRemap => HoldButtonState::HeldNoRemap,
            HoldButtonState::HeldWithRemap(output) => HoldButtonState::HeldWithRemap(
                output.duplicate(),
            ),
        }
    }
}

// -------------------- profile selection --------------------

/// Whether a window with this title and process satisfies `condition`. The preset
/// conditions match nothing here.
pub open spec fn condition_matches(
    condition: ProfileConditionView,
    title: Seq<char>,
    process: Seq<char>,
) -> bool {
    match condition {
        ProfileConditionView::Always => true,
        ProfileConditionView::TitleAndProcess { title: t, process: p } => title == t && process
            == p,
        ProfileConditionView::Title { title: t } => title == t,
        ProfileConditionView::Process { process: p } => process == p,
        _ => false,
    }
}

/// Whether `profile` applies to a window with this title and process.
pub open spec fn profile_applies(profile: ProfileView, title: Seq<char>, process: Seq<char>) -> bool {
    profile.enabled && condition_matches(profile.condition, title, process)
}

/// The position of the first profile that applies to the window, if any does.
pub open spec fn first_applying(profiles: Seq<ProfileView>, title: Seq<char>, process: Seq<char>) -> Option<int>
    decreases profiles.len(),
{
    if profiles.len() == 0 {
        None
    } else if profile_applies(profiles[0], title, process) {
        Some(0)
    } else {
        match first_applying(profiles.drop_first(), title, process) {
            Some(i) => Some(i + 1),
            None => None,
        }
    }
}

/// `first_applying` picks the first applying profile, and picks none only when none applies.
pub proof fn lemma_first_applying(profiles: Seq<ProfileView>, title: Seq<char>, process: Seq<char>)
    ensures
        first_applying(profiles, title, process) matches Some(i) ==> {
            &&& 0 <= i < profiles.len()
            &&& profile_applies(profiles[i], title, process)
            &&& forall|j: int| 0 <= j < i ==> !profile_applies(#[trigger] profiles[j], title, process)
        },
        first_applying(profiles, title, process) is None ==> forall|j: int|
            0 <= j < profiles.len() ==> !profile_applies(#[trigger] profiles[j], title, process),
    decreases profiles.len(),
{
    if profiles.len() > 0 && !profile_applies(profiles[0], title, process) {
        let rest = profiles.drop_first();
        lemma_first_applying(rest, title, process);
        assert forall|j: int| 1 <= j < profiles.len() implies profiles[j] == #[trigger] rest[j - 1] by {}
        if first_applying(rest, title, process) is None {
            assert forall|j: int| 0 <= j < profiles.len() implies !profile_applies(
                #[trigger] profiles[j],
                title,
                process,
            ) by {
                if j > 0 {
                    assert(profiles[j] == rest[j - 1]);
                }
            }
        } else {
            let i = first_applying(rest, title, process)->0;
            assert forall|j: int| 0 <= j < i + 1 implies !profile_applies(
                #[trigger] profiles[j],
                title,
                process,
            ) by {
                if j > 0 {
                    assert(profiles[j] == rest[j - 1]);
                }
            }
        }
    }
}

/// A profile that applies, with none applying before it, is the one `first_applying` picks.
proof fn lemma_first_applying_found(
    profiles: Seq<ProfileView>,
    title: Seq<char>,
    process: Seq<char>,
    i: int,
)
    requires
        0 <= i < profiles.len(),
        profile_applies(profiles[i], title, process),
        forall|j: int| 0 <= j < i ==> !profile_applies(#[trigger] profiles[j], title, process),
    ensures
        first_applying(profiles, title, process) == Some(i),
{
    lemma_first_applying(profiles, title, process);
    match first_applying(profiles, title, process) {
        Some(k) => {
            if k < i {
                assert(!profile_applies(profiles[k], title, process));
            } else if k > i {
                assert(!profile_applies(profiles[i], title, process));
            }
        },
        None => {
            assert(!profile_applies(profiles[i], title, process));
        },
    }
}

/// Where the cursor should be confined: to the window's bounds when Scroll Lock is off, the
/// active profile asks for it and the bounds are known; nowhere otherwise.
pub open spec fn clip_target(
    profiles: Seq<ProfileView>,
    active: Option<usize>,
    rect: Option<Rect>,
    scroll_lock: bool,
) -> Option<Rect> {
    let wants_clip = match active {
        None => false,
        Some(i) => profiles[i as int].clip_cursor,
    };
    if !scroll_lock && wants_clip && rect is Some {
        rect
    } else {
        None
    }
}

/// What the hook thread must do in the outside world after a foreground check.
#[derive(Debug, PartialEq, Eq)]
pub struct ForegroundActions {
    /// When the active profile changed: tell the user interface the new profile's name, or
    /// that no profile is active.
    pub notify_profile: Option<Option<String>>,
    /// When the cursor clip changed: confine the cursor to this rectangle, or release it.
    pub set_clip: Option<Option<Rect>>,
}

impl ForegroundActions {
    /// Nothing to do.
    pub open spec fn spec_is_none(&self) -> bool {
        self.notify_profile is None && self.set_clip is None
    }
}

// -------------------- HookLocalData --------------------

/// The hook thread's state.
///
/// The channel to the user interface is not part of it: the thread that runs the hooks
/// holds that and performs the actions that the methods below return.
#[derive(Debug)]
pub struct HookLocalData {
    pub ui_observing_inputs: bool,
    pub config: Config,
    /// Hold buttons are stored under their place among all buttons; the wheel entries stay
    /// `NotHeld`.
    pub button_state: ButtonMap<HoldButtonState>,
    pub active_profile: Option<usize>,
    /// One flag list per profile, one flag per layer of that profile.
    pub active_layers_profile: Vec<LayerFlags>,
    pub last_clip: Option<Rect>,
}

impl HookLocalData {
    /// The indices and flags are consistent with the configuration.
    pub open spec fn well_formed(&self) -> bool {
        &&& (self.active_profile matches Some(i) ==> i < self.config.profiles@.len())
        &&& self.layers_consistent()
    }

    /// There is one flag list per profile, with one flag per layer of that profile.
    pub open spec fn layers_consistent(&self) -> bool {
        &&& self.active_layers_profile@.len() == self.config.profiles@.len()
        &&& forall|i: int|
            0 <= i < self.config.profiles@.len() ==> flag_items(
                #[trigger] self.active_layers_profile@[i],
            ).len() == self.config.profiles@[i].layers@.len()
    }

    /// Whether the indices and flags are consistent with the configuration.
    pub fn is_well_formed(&self) -> (consistent: bool)
        ensures
            consistent == self.well_formed(),
    {
        let n: usize = self.config.profiles.len();
        if let Some(i) = self.active_profile {
            if i >= n {
                return false;
            }
        }
        if self.active_layers_profile.len() != n {
            return false;
        }
        let mut i: usize = 0;
        while i < n
            invariant
                n == self.config.profiles@.len(),
                self.active_layers_profile@.len() == n,
                self.active_profile matches Some(k) ==> k < n,
                i <= n,
                forall|j: int|
                    0 <= j < i ==> flag_items(#[trigger] self.active_layers_profile@[j]).len()
                        == self.config.profiles@[j].layers@.len(),
            decreases n - i,
        {
            if self.active_layers_profile[i].len() != self.config.profiles[i].layers.len() {
                return false;
            }
            i = i + 1;
        }
        true
    }

    /// A fresh state for `config`: no button held, no layer active, no cursor clip, the user
    /// interface not observing inputs. Then the foreground window is checked, as
    /// `update_config` does.
    pub fn init_settings(
        config: Config,
        foreground: Result<WindowInfo, WindowError>,
        scroll_lock: bool,
    ) -> (result: (HookLocalData, ForegroundActions))
        ensures
            result.0.well_formed(),
            !result.0.ui_observing_inputs,
            result.0.config@ == config@,
            forall|b: Button| #[trigger] result.0.button_state.spec_get(b) == HoldButtonState::NotHeld,
            forall|i: int|
                0 <= i < config.profiles@.len() ==> flag_items(
                    #[trigger] result.0.active_layers_profile@[i],
                ) == Seq::new(config.profiles@[i].layers@.len(), |j: int| false),
            match foreground {
                Ok(info) => Self::spec_foreground_step(
                    config@.profiles,
                    None,
                    None,
                    info,
                    scroll_lock,
                    result.0.active_profile,
                    result.0.last_clip,
                    result.1,
                ),
                Err(_) => {
                    &&& result.0.active_profile is None
                    &&& result.0.last_clip is None
                    &&& result.1.spec_is_none()
                },
            },
    {
        let mut values: Vec<HoldButtonState> = Vec::new();
        let mut i: usize = 0;
        while i < BUTTON_COUNT
            invariant
                i <= BUTTON_COUNT,
                values@.len() == i,
                forall|j: int| 0 <= j < i ==> #[trigger] values@[j] == HoldButtonState::NotHeld,
            decreases BUTTON_COUNT - i,
        {
            values.push(HoldButtonState::NotHeld);
            i = i + 1;
        }
        let button_state = ButtonMap::from_vec(values).unwrap();
        proof {
            assert forall|b: Button| #[trigger] button_state.spec_get(b) == HoldButtonState::NotHeld by {
                crate::button_map::lemma_values_at_index(button_state, b);
                crate::buttons::lemma_button_index_roundtrip(b);
            }
        }
        let mut result = HookLocalData {
            ui_observing_inputs: false,
            config: Config::default(),
            button_state,
            active_profile: None,
            active_layers_profile: Vec::new(),
            last_clip: None,
        };
        let actions = result.update_config(config, foreground, scroll_lock);
        (result, actions)
    }

    /// Switches to `config`: every layer of every profile is turned off, then the active
    /// profile is chosen again from the foreground window. When the foreground window could
    /// not be read, no profile is active, and the user interface is told so when a profile
    /// was active before.
    pub fn update_config(
        &mut self,
        config: Config,
        foreground: Result<WindowInfo, WindowError>,
        scroll_lock: bool,
    ) -> (actions: ForegroundActions)
        ensures
            final(self).well_formed(),
            final(self).config@ == config@,
            final(self).ui_observing_inputs == old(self).ui_observing_inputs,
            final(self).button_state == old(self).button_state,
            forall|i: int|
                0 <= i < config.profiles@.len() ==> flag_items(
                    #[trigger] final(self).active_layers_profile@[i],
                ) == Seq::new(config.profiles@[i].layers@.len(), |j: int| false),
            match foreground {
                Ok(info) => Self::spec_foreground_step(
                    config@.profiles,
                    old(self).active_profile,
                    old(self).last_clip,
                    info,
                    scroll_lock,
                    final(self).active_profile,
                    final(self).last_clip,
                    actions,
                ),
                Err(_) => {
                    &&& final(self).active_profile is None
                    &&& final(self).last_clip == old(self).last_clip
                    &&& actions.set_clip is None
                    &&& actions.notify_profile == if old(self).active_profile is Some {
                        Some(None::<String>)
                    } else {
                        None::<Option<String>>
                    }
                },
            },
    {
        self.config = config;
        let mut flags: Vec<LayerFlags> = Vec::new();
        let mut i: usize = 0;
        let n: usize = self.config.profiles.len();
        while i < n
            invariant
                n == self.config.profiles@.len(),
                i <= n,
                flags@.len() == i,
                forall|j: int|
                    0 <= j < i ==> flag_items(#[trigger] flags@[j]) == Seq::new(
                        self.config.profiles@[j].layers@.len(),
                        |k: int| false,
                    ),
            decreases n - i,
        {
            let layer_count: usize = self.config.profiles[i].layers.len();
            flags.push(LayerFlags::all_off(layer_count));
            i = i + 1;
        }
        self.active_layers_profile = flags;
        match foreground {
            Ok(info) => self.update_from_foreground(info, scroll_lock),
            Err(_) => {
                let notify_profile = if self.active_profile.is_some() {
                    Some(None)
                } else {
                    None
                };
                self.active_profile = None;
                ForegroundActions { notify_profile, set_clip: None }
            },
        }
    }

    /// One foreground check: `new_active` is the first enabled profile whose condition the
    /// window meets; the user interface hears of it exactly when it differs from
    /// `old_active`; the cursor clip is recomputed and set exactly when it differs from
    /// `old_clip`.
    pub open spec fn spec_foreground_step(
        profiles: Seq<ProfileView>,
        old_active: Option<usize>,
        old_clip: Option<Rect>,
        info: WindowInfo,
        scroll_lock: bool,
        new_active: Option<usize>,
        new_clip: Option<Rect>,
        actions: ForegroundActions,
    ) -> bool {
        let chosen = first_applying(profiles, info.title@, info.process@);
        let target = clip_target(profiles, new_active, info.rect, scroll_lock);
        &&& (chosen matches Some(i) ==> new_active == Some(i as usize))
        &&& (chosen is None ==> new_active is None)
        &&& new_clip == target
        &&& (actions.notify_profile is Some <==> new_active != old_active)
        &&& (actions.notify_profile matches Some(n) ==> match n {
            Some(name) => new_active matches Some(i) && name@ == profiles[i as int].name,
            None => new_active is None,
        })
        &&& (actions.set_clip is Some <==> target != old_clip)
        &&& (actions.set_clip matches Some(clip) ==> clip == target)
    }

    /// Chooses the active profile for the window described by `info`, and the cursor clip.
    ///
    /// The active profile is the first enabled profile whose condition the window meets.
    /// The user interface is told only when the active profile changes. The cursor is
    /// confined to the window only while Scroll Lock is off and the active profile asks for
    /// it; the clip is set again only when it changes.
    pub fn update_from_foreground(&mut self, info: WindowInfo, scroll_lock: bool) -> (actions: ForegroundActions)
        ensures
            final(self).active_profile matches Some(i) ==> i < final(self).config.profiles@.len(),
            final(self).well_formed() == old(self).layers_consistent(),
            final(self).config == old(self).config,
            final(self).ui_observing_inputs == old(self).ui_observing_inputs,
            final(self).button_state == old(self).button_state,
            final(self).active_layers_profile == old(self).active_layers_profile,
            Self::spec_foreground_step(
                old(self).config@.profiles,
                old(self).active_profile,
                old(self).last_clip,
                info,
                scroll_lock,
                final(self).active_profile,
                final(self).last_clip,
                actions,
            ),
    {
        let ghost profiles = self.config@.profiles;
        let n: usize = self.config.profiles.len();
        let mut new_profile: Option<usize> = None;
        let mut i: usize = 0;
        while i < n
            invariant_except_break
                new_profile is None,
                forall|j: int| 0 <= j < i ==> !profile_applies(#[trigger] profiles[j], info.title@, info.process@),
            invariant
                n == self.config.profiles@.len(),
                profiles == self.config@.profiles,
                i <= n,
            ensures
                new_profile matches Some(k) ==> k < n && first_applying(profiles, info.title@, info.process@) == Some(k as int),
                new_profile is None ==> forall|j: int|
                    0 <= j < n ==> !profile_applies(#[trigger] profiles[j], info.title@, info.process@),
            decreases n - i,
        {
            let profile = &self.config.profiles[i];
            if profile.enabled && Self::condition_holds(&profile.condition, &info) {
                proof {
                    lemma_first_applying_found(profiles, info.title@, info.process@, i as int);
                }
                new_profile = Some(i);
                break;
            }
            i = i + 1;
        }
        proof {
            if new_profile is None {
                lemma_first_applying(profiles, info.title@, info.process@);
                if first_applying(profiles, info.title@, info.process@) is Some {
                    let k = first_applying(profiles, info.title@, info.process@)->0;
                    assert(!profile_applies(profiles[k], info.title@, info.process@));
                }
            }
        }
        let changed = match (self.active_profile, new_profile) {
            (Some(a), Some(b)) => a != b,
            (None, None) => false,
            _ => true,
        };
        let notify_profile = if changed {
            match new_profile {
                Some(idx) => Some(Some(self.config.profiles[idx].name.clone())),
                None => Some(None),
            }
        } else {
            None
        };
        self.active_profile = new_profile;

        let wants_clip = match self.active_profile {
            None => false,
            Some(idx) => self.config.profiles[idx].clip_cursor,
        };
        let will_clip_to = if !scroll_lock && wants_clip && info.rect.is_some() {
            info.rect
        } else {
            None
        };
        let same_clip = match (will_clip_to, self.last_clip) {
            (Some(a), Some(b)) => a == b,
            (None, None) => true,
            _ => false,
        };
        if same_clip {
            return ForegroundActions { notify_profile, set_clip: None };
        }
        self.last_clip = will_clip_to;
        ForegroundActions { notify_profile, set_clip: Some(will_clip_to) }
    }

    /// Handles a timer expiry or a foreground-change message: when the foreground window
    /// could be read, the active profile and the cursor clip are chosen again as
    /// `update_from_foreground` does; when it could not, nothing changes (the message loop
    /// only logs the failure).
    pub fn check_foreground(
        &mut self,
        foreground: Result<WindowInfo, WindowError>,
        scroll_lock: bool,
    ) -> (actions: ForegroundActions)
        ensures
            old(self).well_formed() ==> final(self).well_formed(),
            final(self).config == old(self).config,
            final(self).ui_observing_inputs == old(self).ui_observing_inputs,
            final(self).button_state == old(self).button_state,
            final(self).active_layers_profile == old(self).active_layers_profile,
            match foreground {
                Ok(info) => Self::spec_foreground_step(
                    old(self).config@.profiles,
                    old(self).active_profile,
                    old(self).last_clip,
                    info,
                    scroll_lock,
                    final(self).active_profile,
                    final(self).last_clip,
                    actions,
                ),
                Err(_) => {
                    &&& *final(self) == *old(self)
                    &&& actions.spec_is_none()
                },
            },
    {
        match foreground {
            Ok(info) => self.update_from_foreground(info, scroll_lock),
            Err(_) => ForegroundActions { notify_profile: None, set_clip: None },
        }
    }

    /// Handles `Quit`: returns what the thread must undo before it ends, and forgets the
    /// cursor clip, which the last action releases. The cursor is released whether or not a
    /// clip is known to be set, so a clip is never left behind.
    pub fn quit(&mut self) -> (cleanup: Vec<CleanupAction>)
        ensures
            cleanup@ == spec_quit_cleanup(),
            *final(self) == (HookLocalData { last_clip: None, ..*old(self) }),
    {
        self.last_clip = None;
        let mut cleanup: Vec<CleanupAction> = Vec::new();
        cleanup.push(CleanupAction::RemoveForegroundHook);
        cleanup.push(CleanupAction::RemoveMinimizeEndHook);
        cleanup.push(CleanupAction::KillTimer);
        cleanup.push(CleanupAction::ReleaseCursorClip);
        proof {
            assert(cleanup@ =~= spec_quit_cleanup());
        }
        cleanup
    }

    /// Starts or stops telling the user interface about pressed buttons; nothing else
    /// changes.
    pub fn set_ui_observing(&mut self, observing: bool)
        ensures
            *final(self) == (HookLocalData { ui_observing_inputs: observing, ..*old(self) }),
    {
        self.ui_observing_inputs = observing;
    }

    /// Whether the window meets `condition`.
    pub fn condition_holds(condition: &ProfileCondition, info: &WindowInfo) -> (holds: bool)
        ensures
            holds == condition_matches(condition@, info.title@, info.process@),
    {
        match condition {
            ProfileCondition::Always => true,
            ProfileCondition::TitleAndProcess { title, process } => info.title == *title
                && info.process == *process,
            ProfileCondition::Title { title } => info.title == *title,
            ProfileCondition::Process { process } => info.process == *process,
            _ => false,
        }
    }
}

/// Checking the same window twice in a row changes nothing the second time: no message to
/// the user interface and no new cursor clip.
pub proof fn lemma_foreground_check_settles(
    profiles: Seq<ProfileView>,
    old_active: Option<usize>,
    old_clip: Option<Rect>,
    info: WindowInfo,
    scroll_lock: bool,
    mid_active: Option<usize>,
    mid_clip: Option<Rect>,
    first: ForegroundActions,
    new_active: Option<usize>,
    new_clip: Option<Rect>,
    second: ForegroundActions,
)
    requires
        HookLocalData::spec_foreground_step(
            profiles,
            old_active,
            old_clip,
            info,
            scroll_lock,
            mid_active,
            mid_clip,
            first,
        ),
        HookLocalData::spec_foreground_step(
            profiles,
            mid_active,
            mid_clip,
            info,
            scroll_lock,
            new_active,
            new_clip,
            second,
        ),
    ensures
        second.spec_is_none(),
        new_active == mid_active,
        new_clip == mid_clip,
{
}

/// Stopping leaves no cursor clip behind and no hook installed: a set clip is released, the
/// timer is stopped, and both event hooks are removed before the cursor is let go.
pub proof fn lemma_quit_releases_everything()
    ensures
        spec_quit_cleanup().contains(CleanupAction::ReleaseCursorClip),
        spec_quit_cleanup().contains(CleanupAction::KillTimer),
        spec_quit_cleanup().contains(CleanupAction::RemoveForegroundHook),
        spec_quit_cleanup().contains(CleanupAction::RemoveMinimizeEndHook),
        spec_quit_cleanup().last() == CleanupAction::ReleaseCursorClip,
{
    assert(spec_quit_cleanup()[3] == CleanupAction::ReleaseCursorClip);
    assert(spec_quit_cleanup()[2] == CleanupAction::KillTimer);
    assert(spec_quit_cleanup()[1] == CleanupAction::RemoveMinimizeEndHook);
    assert(spec_quit_cleanup()[0] == CleanupAction::RemoveForegroundHook);
}

/// With Scroll Lock on, the cursor is never confined.
pub proof fn lemma_scroll_lock_releases_clip(
    profiles: Seq<ProfileView>,
    active: Option<usize>,
    rect: Option<Rect>,
)
    ensures
        clip_target(profiles, active, rect, true) is None,
{
}

} // verus!
