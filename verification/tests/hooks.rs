use reemap::hooks::{loop_step, CleanupAction, HookLoopStep, HookMessage, WM_APP, WM_TIMER};
use reemap::buttons::key::KeyButton;
use reemap::buttons::Button;
use reemap::config::{Config, Layer, Profile, ProfileCondition};
use reemap::hooks::errors::{ForegroundHookError, MinimizeEndHookError};
use reemap::hooks::{HoldButtonState, HookLocalData};
use reemap::query_windows::{Rect, WindowError, WindowInfo};

fn window(title: &str, process: &str, rect: Option<Rect>) -> WindowInfo {
    WindowInfo { title: String::from(title), process: String::from(process), rect }
}

fn profile(name: &str, condition: ProfileCondition, layers: usize) -> Profile {
    let mut p = Profile::default();
    p.name = String::from(name);
    p.condition = condition;
    for _ in 0..layers {
        p.layers.push(Layer::default());
    }
    p
}

fn sample_config() -> Config {
    let mut config = Config::default();
    config.profiles.push(profile(
        "Editor",
        ProfileCondition::Process { process: String::from("notepad.exe") },
        2,
    ));
    config.profiles.push(profile(
        "Game",
        ProfileCondition::TitleAndProcess {
            title: String::from("Game"),
            process: String::from("game.exe"),
        },
        1,
    ));
    config.profiles.push(profile("Everywhere", ProfileCondition::Always, 0));
    config
}

const RECT: Rect = Rect { left: 0, top: 0, right: 800, bottom: 600 };

#[test]
fn first_enabled_matching_profile_is_chosen() {
    let (mut data, actions) =
        HookLocalData::init_settings(sample_config(), Ok(window("Game", "game.exe", None)), false);
    assert_eq!(data.active_profile, Some(1));
    assert_eq!(actions.notify_profile, Some(Some(String::from("Game"))));
    assert_eq!(actions.set_clip, None);
    assert!(!data.ui_observing_inputs);
    assert_eq!(data.active_layers_profile.len(), 3);
    assert_eq!(*data.button_state.get(Button::Key(KeyButton::A)), HoldButtonState::NotHeld);

    // A window that only the catch-all profile matches.
    let actions = data.update_from_foreground(window("Other", "other.exe", None), false);
    assert_eq!(data.active_profile, Some(2));
    assert_eq!(actions.notify_profile, Some(Some(String::from("Everywhere"))));

    // The editor's profile comes first.
    let actions = data.update_from_foreground(window("x", "notepad.exe", None), false);
    assert_eq!(data.active_profile, Some(0));
    assert_eq!(actions.notify_profile, Some(Some(String::from("Editor"))));
}

#[test]
fn disabled_profiles_are_skipped() {
    let mut config = sample_config();
    config.profiles[1].enabled = false;
    config.profiles[2].enabled = false;
    let (data, actions) =
        HookLocalData::init_settings(config, Ok(window("Game", "game.exe", None)), false);
    assert_eq!(data.active_profile, None);
    // No profile was active before either: nothing to tell.
    assert_eq!(actions.notify_profile, None);
}

#[test]
fn presets_match_no_window() {
    let mut config = Config::default();
    config.profiles.push(profile("Ori", ProfileCondition::OriBF, 0));
    let (data, _) = HookLocalData::init_settings(
        config,
        Ok(window("Ori And The Blind Forest", "ori.exe", None)),
        false,
    );
    assert_eq!(data.active_profile, None);
}

#[test]
fn notify_only_on_change() {
    let (mut data, _) =
        HookLocalData::init_settings(sample_config(), Ok(window("Game", "game.exe", None)), false);
    let again = data.update_from_foreground(window("Game", "game.exe", None), false);
    assert_eq!(again.notify_profile, None);
    assert_eq!(again.set_clip, None);
    assert_eq!(data.active_profile, Some(1));
}

#[test]
fn cursor_clip_follows_profile_and_scroll_lock() {
    let mut config = sample_config();
    config.profiles[1].clip_cursor = true;
    let (mut data, actions) =
        HookLocalData::init_settings(config, Ok(window("Game", "game.exe", Some(RECT))), false);
    assert_eq!(actions.set_clip, Some(Some(RECT)));
    assert_eq!(data.last_clip, Some(RECT));

    // Same window again: the clip is not set again.
    let actions = data.update_from_foreground(window("Game", "game.exe", Some(RECT)), false);
    assert_eq!(actions.set_clip, None);

    // Scroll Lock releases the cursor.
    let actions = data.update_from_foreground(window("Game", "game.exe", Some(RECT)), true);
    assert_eq!(actions.set_clip, Some(None));
    assert_eq!(actions.notify_profile, None);
    assert_eq!(data.last_clip, None);

    // A moved window with Scroll Lock off clips to the new bounds.
    let moved = Rect { left: 10, top: 10, right: 810, bottom: 610 };
    let actions = data.update_from_foreground(window("Game", "game.exe", Some(moved)), false);
    assert_eq!(actions.set_clip, Some(Some(moved)));

    // Another profile without clipping releases it.
    let actions = data.update_from_foreground(window("Other", "other.exe", Some(RECT)), false);
    assert_eq!(actions.set_clip, Some(None));
    assert_eq!(actions.notify_profile, Some(Some(String::from("Everywhere"))));
}

#[test]
fn unknown_bounds_do_not_clip() {
    let mut config = sample_config();
    config.profiles[1].clip_cursor = true;
    let (data, actions) =
        HookLocalData::init_settings(config, Ok(window("Game", "game.exe", None)), false);
    assert_eq!(data.active_profile, Some(1));
    assert_eq!(actions.set_clip, None);
    assert_eq!(data.last_clip, None);
}

#[test]
fn unreadable_foreground_deactivates() {
    let (mut data, _) =
        HookLocalData::init_settings(sample_config(), Ok(window("Game", "game.exe", None)), false);
    assert_eq!(data.active_profile, Some(1));
    let actions = data.update_config(sample_config(), Err(WindowError::InvalidHWND), false);
    assert_eq!(data.active_profile, None);
    // The user interface hears that no profile is active any more.
    assert_eq!(actions.notify_profile, Some(None));
    // With no profile active before, there is nothing to tell.
    let actions = data.update_config(sample_config(), Err(WindowError::InvalidHWND), false);
    assert_eq!(actions.notify_profile, None);
    assert_eq!(actions.set_clip, None);

    let (fresh, actions) =
        HookLocalData::init_settings(sample_config(), Err(WindowError::OpenProcessError), false);
    assert_eq!(fresh.active_profile, None);
    assert_eq!(actions.notify_profile, None);
}

#[test]
fn update_config_resets_layers() {
    let (mut data, _) =
        HookLocalData::init_settings(sample_config(), Ok(window("Game", "game.exe", None)), false);
    let mut config = sample_config();
    config.profiles.truncate(1);
    let actions = data.update_config(config, Ok(window("Game", "game.exe", None)), false);
    assert_eq!(data.active_layers_profile.len(), 1);
    assert_eq!(data.active_profile, None);
    assert_eq!(actions.notify_profile, Some(None));
}

#[test]
fn condition_checks() {
    let info = window("Game", "game.exe", None);
    assert!(HookLocalData::condition_holds(&ProfileCondition::Always, &info));
    assert!(HookLocalData::condition_holds(
        &ProfileCondition::Title { title: String::from("Game") },
        &info
    ));
    assert!(!HookLocalData::condition_holds(
        &ProfileCondition::Title { title: String::from("game") },
        &info
    ));
    assert!(!HookLocalData::condition_holds(
        &ProfileCondition::TitleAndProcess {
            title: String::from("Game"),
            process: String::from("other.exe"),
        },
        &info
    ));
    assert!(!HookLocalData::condition_holds(&ProfileCondition::OriWotW, &info));
}

#[test]
fn hook_error_messages() {
    assert_eq!(ForegroundHookError::UnsuccessfulHook.message(), "error setting event hook");
    assert_eq!(ForegroundHookError::UnsuccessfulUnhook.message(), "error removing event hook");
    assert_eq!(MinimizeEndHookError::UnsuccessfulHook.message(), "error setting event hook");
    assert_eq!(MinimizeEndHookError::UnsuccessfulUnhook.message(), "error removing event hook");
}

#[test]
fn message_numbers_round_trip() {
    let all = [
        HookMessage::TimerExpire,
        HookMessage::Quit,
        HookMessage::Update,
        HookMessage::CheckForeground,
        HookMessage::RegisterUIObserveInputs,
        HookMessage::UnregisterUIObserveInputs,
    ];
    for m in all {
        assert_eq!(HookMessage::from_u32(m.to_u32()), Some(m));
    }
    assert_eq!(HookMessage::TimerExpire.to_u32(), 0x0113);
    assert_eq!(WM_TIMER, 0x0113);
    assert_eq!(HookMessage::Quit.to_u32(), WM_APP);
    assert_eq!(HookMessage::UnregisterUIObserveInputs.to_u32(), 0x8004);
    assert_eq!(HookMessage::from_u32(0x8005), None);
    assert_eq!(HookMessage::from_u32(0x0001), None);
}

#[test]
fn failed_foreground_check_changes_nothing() {
    let mut config = sample_config();
    config.profiles[1].clip_cursor = true;
    let (mut data, _) =
        HookLocalData::init_settings(config, Ok(window("Game", "game.exe", Some(RECT))), false);
    let actions = data.check_foreground(Err(WindowError::QueryProcessError), true);
    assert_eq!(actions.notify_profile, None);
    assert_eq!(actions.set_clip, None);
    assert_eq!(data.active_profile, Some(1));
    assert_eq!(data.last_clip, Some(RECT));

    let actions = data.check_foreground(Ok(window("Other", "x.exe", None)), false);
    assert_eq!(actions.notify_profile, Some(Some(String::from("Everywhere"))));
    assert_eq!(actions.set_clip, Some(None));
}

#[test]
fn state_stays_consistent() {
    let (mut data, _) =
        HookLocalData::init_settings(sample_config(), Ok(window("Game", "game.exe", None)), false);
    assert!(data.is_well_formed());
    let _ = data.update_config(Config::default(), Ok(window("Game", "game.exe", None)), false);
    assert!(data.is_well_formed());
    assert!(data.active_layers_profile.is_empty());
    let _ = data.check_foreground(Ok(window("x", "y", None)), false);
    assert!(data.is_well_formed());
    data.active_profile = Some(5);
    assert!(!data.is_well_formed());
}

#[test]
fn message_loop_steps() {
    assert_eq!(loop_step(HookMessage::Quit.to_u32()), HookLoopStep::Quit);
    assert_eq!(loop_step(HookMessage::Update.to_u32()), HookLoopStep::ApplyConfig);
    assert_eq!(loop_step(HookMessage::TimerExpire.to_u32()), HookLoopStep::CheckForeground);
    assert_eq!(loop_step(HookMessage::CheckForeground.to_u32()), HookLoopStep::CheckForeground);
    assert_eq!(
        loop_step(HookMessage::RegisterUIObserveInputs.to_u32()),
        HookLoopStep::SetUiObserving(true)
    );
    assert_eq!(
        loop_step(HookMessage::UnregisterUIObserveInputs.to_u32()),
        HookLoopStep::SetUiObserving(false)
    );
    assert_eq!(loop_step(0x0200), HookLoopStep::Dispatch);

    let (mut data, _) =
        HookLocalData::init_settings(sample_config(), Ok(window("Game", "game.exe", None)), false);
    data.set_ui_observing(true);
    assert!(data.ui_observing_inputs);
    assert_eq!(data.active_profile, Some(1));
    data.set_ui_observing(false);
    assert!(!data.ui_observing_inputs);
}

#[test]
fn foreground_update_from_any_state() {
    let (mut data, _) =
        HookLocalData::init_settings(sample_config(), Ok(window("Game", "game.exe", None)), false);
    data.active_layers_profile.clear();
    let actions = data.update_from_foreground(window("Other", "o.exe", None), false);
    assert_eq!(actions.notify_profile, Some(Some(String::from("Everywhere"))));
    assert!(!data.is_well_formed());
}

#[test]
fn quitting_undoes_everything() {
    let mut config = sample_config();
    config.profiles[1].clip_cursor = true;
    let (mut data, _) =
        HookLocalData::init_settings(config, Ok(window("Game", "game.exe", Some(RECT))), false);
    assert_eq!(data.last_clip, Some(RECT));
    let cleanup = data.quit();
    assert_eq!(
        cleanup,
        vec![
            CleanupAction::RemoveForegroundHook,
            CleanupAction::RemoveMinimizeEndHook,
            CleanupAction::KillTimer,
            CleanupAction::ReleaseCursorClip,
        ]
    );
    assert_eq!(data.last_clip, None);
    assert_eq!(data.active_profile, Some(1));
}
