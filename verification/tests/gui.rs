use reemap::gui::{check_repaint_time, request_repaint, RepaintCheck, WaitMode};
use reemap::gui::{tray_menu_choice, TrayMenuChoice, MENU_ID_CONFIGURE, MENU_ID_EXIT};
use reemap::gui::reemapp::edits::ConfigEdits;
use reemap::changes::{has_unsaved_changes, same_outputs};
use reemap::buttons::key::KeyButton;
use reemap::buttons::mouse::MouseButton;
use reemap::buttons::wheel::MouseWheelButton;
use reemap::buttons::{Button, HoldButton};
use reemap::config::{
    BaseLayer, BaseRemapPolicy, Config, Layer, LayerType, Profile, ProfileCondition, RemapPolicy,
};
use reemap::gui::reemapp::listing::{
    any_output_matches, available_buttons, available_hold_buttons, hold_table_order,
    table_order, visible_base_remaps, visible_layer_remaps,
};
use reemap::gui::reemapp::tables::{
    copy_item_after, push_unique_hold_button, push_unique_output, rearrange, swap_items,
    EnableListItem,
};
use reemap::gui::reemapp::{
    ok_cancel_outcome, BaseRemapPolicyUI, EditLayerModalOpts, EditProfileModalOpts, GuiMenu,
    NewBaseRemapModalOpts, NewRemapModalOpts, ProfileConditionUI, RemapPolicyUI,
    RemapsSearchOpts, SettingsModalOpts,
};
use reemap::gui::search::{contains_text, name_matches_term, prepare_search, trim};
use reemap::gui::{repaint_request_is_current, window_title, TrayAppCtx};
use reemap::output::Output;
use reemap::query_windows::{path_units_read, title_units_read, WindowError, WindowInfo, TEXT_CAP};

fn output_of(buttons: &[Button]) -> Output {
    let mut output = Output::new();
    for b in buttons {
        output.push(*b);
    }
    output
}

fn items(output: &Output) -> Vec<Button> {
    (0..output.len()).map(|i| output.get(i)).collect()
}

fn window(title: &str, process: &str) -> WindowInfo {
    WindowInfo { title: String::from(title), process: String::from(process), rect: None }
}

#[test]
fn titles_and_repaints() {
    assert_eq!(window_title(Some(String::from("Game"))), "Game - Reemap");
    assert_eq!(window_title(None), "Reemap");
    assert!(repaint_request_is_current(5, 5));
    assert!(repaint_request_is_current(6, 5));
    assert!(!repaint_request_is_current(7, 5));
    assert!(!repaint_request_is_current(4, 5));
    assert_eq!(TrayAppCtx::default().last_pressed_button, None);
}

#[test]
fn ok_cancel() {
    assert_eq!(ok_cancel_outcome(true, false, true), Some(true));
    assert_eq!(ok_cancel_outcome(true, false, false), None);
    assert_eq!(ok_cancel_outcome(true, true, false), Some(false));
    assert_eq!(ok_cancel_outcome(false, true, true), Some(false));
    assert_eq!(ok_cancel_outcome(false, false, true), None);
}

#[test]
fn breadcrumbs() {
    let mut config = Config::default();
    let mut profile = Profile::default();
    profile.name = String::from("Game");
    let mut layer = Layer::default();
    layer.name = String::from("Shift layer");
    profile.layers.push(layer);
    config.profiles.push(profile);

    let menu = GuiMenu::ProfileLayer { profile_idx: 0, layer_idx: 0 };
    let trail = menu.breadcrumb();
    assert_eq!(
        trail,
        vec![GuiMenu::Main, GuiMenu::Profile { profile_idx: 0 }, menu]
    );
    let labels: Vec<String> = trail.iter().map(|m| m.crumb_label(&config)).collect();
    assert_eq!(labels, vec!["Home", "Game", "Shift layer"]);
    assert_eq!(GuiMenu::Main.breadcrumb(), vec![GuiMenu::Main]);
    assert_eq!(GuiMenu::default(), GuiMenu::Main);
}

#[test]
fn condition_kinds() {
    assert_eq!(ProfileConditionUI::default(), ProfileConditionUI::TitleAndProcess);
    assert_eq!(ProfileConditionUI::Always.name(), "Always active");
    assert_eq!(ProfileConditionUI::OriBFDE.name(), "Ori and the Blind Forest: Definitive Edition");
    assert!(ProfileConditionUI::Title.uses_title());
    assert!(!ProfileConditionUI::Title.uses_process());
    assert!(ProfileConditionUI::Process.uses_process());
    assert!(ProfileConditionUI::TitleAndProcess.uses_window_list());
    assert!(!ProfileConditionUI::OriWotW.uses_window_list());
    assert!(!ProfileConditionUI::Always.uses_title());
}

#[test]
fn profile_dialog() {
    let windows = vec![window("Game", "game.exe")];
    let mut opts = EditProfileModalOpts::for_new_profile(windows);
    assert!(opts.modal_open);
    assert!(!opts.valid());
    assert_eq!(opts.helper_text(), "Choose a profile name");
    opts.name = String::from("My game");
    assert!(!opts.valid());
    assert_eq!(opts.helper_text(), "Choose a window title or process");
    let picked = opts.open_windows[0].clone();
    opts.pick_window(&picked);
    assert!(opts.valid());
    assert_eq!(opts.helper_text(), "Active when Game (game.exe) is in focus");
    opts.condition = ProfileConditionUI::Always;
    assert_eq!(opts.helper_text(), "Always active");
    opts.condition = ProfileConditionUI::Title;
    let profile = opts.clone().into_profile();
    assert_eq!(profile.name, "My game");
    assert_eq!(profile.condition, ProfileCondition::Title { title: String::from("Game") });
    assert!(profile.enabled);
    assert!(profile.layers.is_empty());

    let reopened = EditProfileModalOpts::from_profile(&profile, Vec::new());
    assert_eq!(reopened.condition, ProfileConditionUI::Title);
    assert_eq!(reopened.title, "Game");
    assert_eq!(reopened.process, "");
    assert_eq!(reopened.extract_condition(), profile.condition);
}

#[test]
fn profile_dialog_presets() {
    let mut opts = EditProfileModalOpts::for_new_profile(Vec::new());
    opts.name = String::from("Ori");
    opts.condition = ProfileConditionUI::OriBF;
    assert!(opts.valid());
    assert_eq!(
        opts.clone().extract_condition(),
        ProfileCondition::TitleAndProcess {
            title: String::from("Ori And The Blind Forest"),
            process: String::from("ori.exe"),
        }
    );
    opts.condition = ProfileConditionUI::OriBFDE;
    assert_eq!(
        opts.clone().extract_condition(),
        ProfileCondition::TitleAndProcess {
            title: String::from("Ori And The Blind Forest: Definitive Edition"),
            process: String::from("oriDE.exe"),
        }
    );
    opts.condition = ProfileConditionUI::OriWotW;
    assert_eq!(
        opts.clone().extract_condition(),
        ProfileCondition::TitleAndProcess {
            title: String::from("OriAndTheWilloftheWisps"),
            process: String::from("oriwotw.exe"),
        }
    );
    let mut preset = Profile::default();
    preset.condition = ProfileCondition::OriBF;
    let reopened = EditProfileModalOpts::from_profile(&preset, Vec::new());
    assert_eq!(reopened.condition, ProfileConditionUI::OriBF);
    assert_eq!(reopened.name, "New Profile");
}

#[test]
fn layer_dialog() {
    let mut opts = EditLayerModalOpts::for_new_layer();
    assert_eq!(opts.name, "New layer");
    assert!(!opts.valid());
    assert_eq!(opts.helper_text(), "Choose one or more inputs");
    push_unique_hold_button(&mut opts.condition, HoldButton::Mouse(MouseButton::X1));
    push_unique_hold_button(&mut opts.condition, HoldButton::Mouse(MouseButton::X1));
    assert_eq!(opts.condition, vec![HoldButton::Mouse(MouseButton::X1)]);
    assert!(opts.valid());
    assert_eq!(opts.helper_text(), "Active when these buttons are held: Mouse X1");
    opts.layer_type = LayerType::Toggle;
    assert_eq!(opts.helper_text(), "Toggled when these buttons are pressed: Mouse X1");

    let layer = opts.to_layer();
    assert_eq!(layer.name, "New layer");
    assert!(layer.enabled);
    assert_eq!(layer.layer_type, LayerType::Toggle);
    assert_eq!(*layer.policy.get(Button::Key(KeyButton::A)), RemapPolicy::Defer);

    let mut existing = Layer::default();
    existing.enabled = false;
    existing.policy.set(Button::Key(KeyButton::A), RemapPolicy::NoRemap);
    opts.name = String::from("Renamed");
    opts.apply_to(&mut existing);
    assert_eq!(existing.name, "Renamed");
    assert!(!existing.enabled);
    assert_eq!(existing.layer_type, LayerType::Toggle);
    assert_eq!(*existing.policy.get(Button::Key(KeyButton::A)), RemapPolicy::NoRemap);

    let back = EditLayerModalOpts::from_layer(&existing);
    assert_eq!(back.name, "Renamed");
    assert_eq!(back.condition, existing.condition);
}

#[test]
fn remap_dialogs() {
    let a = Button::Key(KeyButton::A);
    let outputs = output_of(&[Button::Key(KeyButton::B), Button::Mouse(MouseButton::Right)]);

    let opts = NewRemapModalOpts::open_for(a, &RemapPolicy::Remap(outputs.clone()));
    assert_eq!(opts.modal_open, Some(a));
    assert_eq!(opts.policy, RemapPolicyUI::Remap);
    assert_eq!(opts.chosen_policy(), RemapPolicy::Remap(outputs.clone()));
    assert_eq!(
        opts.helper_text(a),
        "When active, this layer will remap A to the following: B, Right Click."
    );
    let opts = NewRemapModalOpts::open_for(a, &RemapPolicy::Defer);
    assert_eq!(opts.chosen_policy(), RemapPolicy::Defer);
    assert_eq!(opts.helper_text(a), "This layer will not affect A inputs.");
    let mut opts = NewRemapModalOpts::open_for(a, &RemapPolicy::NoRemap);
    assert_eq!(opts.helper_text(a), "When active, this layer will prevent A from being remapped.");
    opts.policy = RemapPolicyUI::Remap;
    assert_eq!(
        opts.helper_text(a),
        "When active, this layer will remap A to the following: (no inputs)."
    );
    assert_eq!(RemapPolicyUI::Defer.name(), "Defer");

    let mut base = NewBaseRemapModalOpts::open_for(a, &BaseRemapPolicy::NoRemap);
    assert!(base.valid());
    assert_eq!(base.helper_text(a), "A will not be remapped.");
    assert_eq!(base.chosen_policy(), BaseRemapPolicy::NoRemap);
    base.policy = BaseRemapPolicyUI::Remap;
    assert!(!base.valid());
    assert_eq!(base.helper_text(a), "Choose one or more buttons");
    push_unique_output(&mut base.outputs, Button::Wheel(MouseWheelButton::Up));
    assert!(base.valid());
    assert_eq!(base.helper_text(a), "A will be remapped to the following: Scroll Up.");
    assert_eq!(BaseRemapPolicyUI::NoRemap.name(), "No Remap");

    let reopened = NewBaseRemapModalOpts::open_for(a, &base.chosen_policy());
    assert_eq!(reopened.policy, BaseRemapPolicyUI::Remap);
    assert_eq!(items(&reopened.outputs), vec![Button::Wheel(MouseWheelButton::Up)]);
}

#[test]
fn settings_dialog() {
    let mut config = Config::default();
    config.show_rare_keys = true;
    let mut opts = SettingsModalOpts::open(Some(false), &config);
    assert!(opts.modal_open);
    assert!(opts.show_rare_keys);
    assert_eq!(opts.registry_change(), None);
    opts.run_on_login = Some(true);
    assert_eq!(opts.registry_change(), Some(true));
    opts.show_rare_keys = false;
    opts.apply_to(&mut config);
    assert!(!config.show_rare_keys);

    let unread = SettingsModalOpts::open(None, &config);
    assert_eq!(unread.registry_change(), None);
    let mut chosen = unread;
    chosen.run_on_login = Some(false);
    assert_eq!(chosen.registry_change(), Some(false));
}

#[test]
fn rearranging_lists() {
    let mut list = vec![1, 2, 3, 4];
    swap_items(&mut list, 0, 2);
    assert_eq!(list, vec![3, 2, 1, 4]);
    swap_items(&mut list, 0, 2);
    assert_eq!(list, vec![1, 2, 3, 4]);
    swap_items(&mut list, 1, 1);
    assert_eq!(list, vec![1, 2, 3, 4]);
    rearrange(&mut list, Some((2, 3)), Some(0));
    assert_eq!(list, vec![2, 4, 3]);
    rearrange(&mut list, None, None);
    assert_eq!(list, vec![2, 4, 3]);

    let mut outputs = output_of(&[Button::Key(KeyButton::A), Button::Key(KeyButton::B)]);
    rearrange(&mut outputs, Some((0, 1)), None);
    assert_eq!(items(&outputs), vec![Button::Key(KeyButton::B), Button::Key(KeyButton::A)]);
    push_unique_output(&mut outputs, Button::Key(KeyButton::A));
    assert_eq!(outputs.len(), 2);
    push_unique_output(&mut outputs, Button::Key(KeyButton::C));
    assert_eq!(outputs.len(), 3);
    assert!(outputs.contains(Button::Key(KeyButton::C)));
    assert!(!outputs.contains(Button::Key(KeyButton::D)));
}

#[test]
fn copying_and_enabling_entries() {
    let mut profiles = vec![Profile::default(), Profile::default()];
    profiles[1].name = String::from("Second");
    copy_item_after(&mut profiles, 0);
    assert_eq!(profiles.len(), 3);
    assert_eq!(profiles[0].name, "New Profile");
    assert_eq!(profiles[1].name, "New Profile (copy)");
    assert_eq!(profiles[2].name, "Second");

    let mut layers = vec![Layer::default()];
    copy_item_after(&mut layers, 0);
    assert_eq!(layers[1].name, "New Layer (copy)");

    *layers[0].enable_mut() = false;
    assert!(!layers[0].enabled);
    *profiles[2].enable_mut() = false;
    assert!(!profiles[2].enabled);
}

#[test]
fn search_terms() {
    assert_eq!(prepare_search("  Scroll UP "), "scroll up");
    assert!(name_matches_term("Scroll Up", "scroll"));
    assert!(name_matches_term("Anything", ""));
    assert!(!name_matches_term("Left Click", "right"));
    assert!(contains_text("hello world", "o w"));
    assert!(contains_text("abc", ""));
    assert!(!contains_text("ab", "abc"));
    assert!(!contains_text("abc", "ac"));
}

#[test]
fn table_orders() {
    let order = table_order();
    assert_eq!(order.len(), 61);
    assert_eq!(order[0], Button::Mouse(MouseButton::Left));
    assert_eq!(order[5], Button::Wheel(MouseWheelButton::Up));
    assert_eq!(order[9], Button::Key(KeyButton::all()[0]));
    let hold = hold_table_order();
    assert_eq!(hold.len(), 57);
    assert_eq!(hold[4], HoldButton::Mouse(MouseButton::X2));
    assert_eq!(hold[5], HoldButton::Key(KeyButton::all()[0]));
}

#[test]
fn button_pickers_filter_by_name() {
    assert_eq!(available_buttons(""), table_order());
    assert_eq!(available_buttons("   "), table_order());
    assert_eq!(
        available_buttons("SCROLL"),
        vec![
            Button::Wheel(MouseWheelButton::Up),
            Button::Wheel(MouseWheelButton::Down),
            Button::Wheel(MouseWheelButton::HorzRight),
            Button::Wheel(MouseWheelButton::HorzLeft),
        ]
    );
    assert_eq!(available_hold_buttons("").len(), 57);
    assert_eq!(
        available_hold_buttons("mouse x"),
        vec![
            HoldButton::Mouse(MouseButton::X1),
            HoldButton::Mouse(MouseButton::X2),
            HoldButton::Key(KeyButton::XBUTTON1),
            HoldButton::Key(KeyButton::XBUTTON2),
        ]
    );
}

#[test]
fn remap_tables_filter_rows() {
    let mut base = BaseLayer::default();
    let a = Button::Key(KeyButton::A);
    base.policy.set(a, BaseRemapPolicy::Remap(output_of(&[Button::Wheel(MouseWheelButton::Up)])));
    let mut opts = RemapsSearchOpts::default();
    assert_eq!(visible_base_remaps(&base, &opts).len(), 61);
    opts.hide_unmapped = true;
    assert_eq!(visible_base_remaps(&base, &opts), vec![a]);
    opts.hide_unmapped = false;
    opts.search_string = String::from("scroll up");
    // The wheel button by its name, and A through its output.
    assert_eq!(
        visible_base_remaps(&base, &opts),
        vec![Button::Wheel(MouseWheelButton::Up), a]
    );

    let mut layer = Layer::default();
    layer.policy.set(a, RemapPolicy::NoRemap);
    let mut layer_opts = RemapsSearchOpts::default();
    layer_opts.hide_unmapped = true;
    assert_eq!(visible_layer_remaps(&layer, &layer_opts), vec![a]);
    layer_opts.hide_unmapped = false;
    assert_eq!(visible_layer_remaps(&layer, &layer_opts).len(), 61);

    let outputs = output_of(&[Button::Mouse(MouseButton::Middle)]);
    assert!(any_output_matches(&outputs, "middle"));
    assert!(!any_output_matches(&outputs, "left"));
}

#[test]
fn editing_a_profile_keeps_its_remaps() {
    let mut profile = Profile::default();
    profile.clip_cursor = true;
    profile.base.policy.set(Button::Key(KeyButton::A), BaseRemapPolicy::Remap(Output::new()));
    let mut opts = EditProfileModalOpts::from_profile(&profile, Vec::new());
    opts.name = String::from("Renamed");
    opts.condition = ProfileConditionUI::Process;
    opts.process = String::from("app.exe");
    opts.apply_to(&mut profile);
    assert_eq!(profile.name, "Renamed");
    assert_eq!(profile.condition, ProfileCondition::Process { process: String::from("app.exe") });
    assert!(profile.clip_cursor);
    assert_eq!(*profile.base.policy.get(Button::Key(KeyButton::A)), BaseRemapPolicy::Remap(Output::new()));
}

#[test]
fn repaint_scheduling() {
    assert_eq!(
        check_repaint_time(10, Some(5), true),
        RepaintCheck { wait: WaitMode::Poll, redraw: true, next_repaint: None }
    );
    assert_eq!(
        check_repaint_time(10, Some(5), false),
        RepaintCheck { wait: WaitMode::Poll, redraw: false, next_repaint: Some(5) }
    );
    assert_eq!(
        check_repaint_time(5, Some(5), true),
        RepaintCheck { wait: WaitMode::WaitUntil(5), redraw: false, next_repaint: Some(5) }
    );
    assert_eq!(
        check_repaint_time(5, None, true),
        RepaintCheck { wait: WaitMode::Wait, redraw: false, next_repaint: None }
    );
    // Drawn once: the next check only waits.
    let first = check_repaint_time(10, Some(5), true);
    assert_eq!(check_repaint_time(11, first.next_repaint, true).wait, WaitMode::Wait);

    assert_eq!(request_repaint(None, 40, 3, 3), Some(40));
    assert_eq!(request_repaint(Some(1), 40, 4, 3), Some(40));
    assert_eq!(request_repaint(Some(1), 40, 5, 3), Some(1));
}

#[test]
fn tray_menu_ids() {
    assert_eq!(tray_menu_choice("MENU_ID_CONFIGURE"), Some(TrayMenuChoice::Configure));
    assert_eq!(tray_menu_choice(MENU_ID_EXIT), Some(TrayMenuChoice::Exit));
    assert_eq!(tray_menu_choice("MENU_ID_OTHER"), None);
    assert_eq!(MENU_ID_CONFIGURE, "MENU_ID_CONFIGURE");
}

#[test]
fn unsaved_changes_apply_and_discard() {
    let mut config = Config::default();
    config.profiles.push(Profile::default());
    let mut edits = ConfigEdits::new(config);
    assert!(!edits.unsaved_changes());

    edits.config.profiles[0].base.policy.set(
        Button::Key(KeyButton::A),
        BaseRemapPolicy::Remap(output_of(&[Button::Key(KeyButton::B)])),
    );
    assert!(edits.unsaved_changes());
    let applied = edits.apply();
    assert!(!edits.unsaved_changes());
    assert!(!has_unsaved_changes(&applied, &edits.config));

    edits.config.profiles[0].layers.push(Layer::default());
    assert!(edits.unsaved_changes());
    let mut menu = GuiMenu::Profile { profile_idx: 0 };
    edits.end_frame(&mut menu);
    assert!(edits.unsaved_changes());
    assert_eq!(menu, GuiMenu::Profile { profile_idx: 0 });
    edits.discard();
    edits.end_frame(&mut menu);
    assert!(!edits.unsaved_changes());
    assert_eq!(menu, GuiMenu::Main);
    assert!(edits.config.profiles[0].layers.is_empty());
}

#[test]
fn unsaved_changes_see_every_field() {
    let mut base = Config::default();
    let mut p = Profile::default();
    let mut l = Layer::default();
    l.condition.push(HoldButton::Key(KeyButton::A));
    p.layers.push(l);
    base.profiles.push(p);
    assert!(!has_unsaved_changes(&base, &base.clone()));

    let mut c = base.clone();
    c.show_rare_keys = true;
    assert!(has_unsaved_changes(&base, &c));
    let mut c = base.clone();
    c.profiles[0].name.push('!');
    assert!(has_unsaved_changes(&base, &c));
    let mut c = base.clone();
    c.profiles[0].clip_cursor = true;
    assert!(has_unsaved_changes(&base, &c));
    let mut c = base.clone();
    c.profiles[0].condition = ProfileCondition::Always;
    assert!(has_unsaved_changes(&base, &c));
    let mut c = base.clone();
    c.profiles[0].layers[0].condition.push(HoldButton::Key(KeyButton::B));
    assert!(has_unsaved_changes(&base, &c));
    let mut c = base.clone();
    c.profiles[0].layers[0].policy.set(Button::Key(KeyButton::Z), RemapPolicy::NoRemap);
    assert!(has_unsaved_changes(&base, &c));
    let mut c = base.clone();
    c.profiles.push(Profile::default());
    assert!(has_unsaved_changes(&base, &c));

    let x = output_of(&[Button::Key(KeyButton::A), Button::Key(KeyButton::B)]);
    let y = output_of(&[Button::Key(KeyButton::B), Button::Key(KeyButton::A)]);
    assert!(same_outputs(&x, &x.clone()));
    assert!(!same_outputs(&x, &y));
    assert!(!same_outputs(&x, &Output::new()));
}

#[test]
fn window_text_lengths() {
    assert_eq!(title_units_read(-1), Err(WindowError::NegativeTextLen(-1)));
    assert_eq!(title_units_read(0), Ok(0));
    assert_eq!(title_units_read(12), Ok(12));
    assert_eq!(title_units_read(600), Ok(TEXT_CAP - 1));
    assert_eq!(path_units_read(511), 511);
    assert_eq!(path_units_read(512), 511);
    let me = WindowInfo::reemap_window();
    assert_eq!(me.title, "Reemap");
    assert_eq!(me.process, "reemap.exe");
    assert_eq!(me.rect, None);
    assert!(me.listed(true));
    assert!(!me.listed(false));
    assert!(window("", "x.exe").listed(true));
    assert!(!window("", "x.exe").listed(false));
}

#[test]
fn trimming_white_space() {
    assert_eq!(trim("  a b  "), "a b");
    assert_eq!(trim("\t\n\u{a0}x\u{3000}\u{2009}"), "x");
    assert_eq!(trim("   "), "");
    assert_eq!(trim(""), "");
    assert_eq!(trim("\u{200b}y"), "\u{200b}y");
    for s in ["  q ", "\u{85}\u{1680}z\u{2028}\u{2029}", "\u{202f}\u{205f}w w\r", "x\u{180e}"] {
        assert_eq!(trim(s), s.trim());
    }
}
