use reemap::buttons::key::KeyButton;
use reemap::buttons::mouse::MouseButton;
use reemap::buttons::wheel::MouseWheelButton;
use reemap::buttons::{Button, HoldButton};
use reemap::config::{
    default_layer_policy, outputs_text, BaseRemapPolicy, Config, Layer, LayerType, Profile,
    ProfileCondition, RemapPolicy, VersionedConfig, VersionedProfile,
};
use reemap::output::Output;
use reemap::text::{join_hold_names, join_names};

fn output_of(buttons: &[Button]) -> Output {
    let mut output = Output::new();
    for b in buttons {
        output.push(*b);
    }
    output
}

#[test]
fn condition_helper_texts() {
    assert_eq!(ProfileCondition::Always.helper_text(), "Always active");
    let both = ProfileCondition::TitleAndProcess {
        title: String::from("Notepad"),
        process: String::from("notepad.exe"),
    };
    assert_eq!(both.helper_text(), "Active when Notepad (notepad.exe) is in focus");
    let title = ProfileCondition::Title { title: String::from("Game") };
    assert_eq!(title.helper_text(), "Active when Game is in focus");
    let process = ProfileCondition::Process { process: String::from("game.exe") };
    assert_eq!(process.helper_text(), "Active when the process game.exe is in focus");
    assert_eq!(
        ProfileCondition::OriBF.helper_text(),
        "Active when Ori and the Blind Forest is in focus"
    );
    assert_eq!(
        ProfileCondition::OriBFDE.helper_text(),
        "Active when Ori and the Blind Forest: Definitive Edition is in focus"
    );
    assert_eq!(
        ProfileCondition::OriWotW.helper_text(),
        "Active when Ori and the Will of the Wisps is in focus"
    );
}

#[test]
fn policy_texts() {
    assert_eq!(BaseRemapPolicy::NoRemap.text(), "(do not remap)");
    assert_eq!(BaseRemapPolicy::Remap(Output::new()).text(), "(block input)");
    let two = output_of(&[Button::Key(KeyButton::A), Button::Mouse(MouseButton::Left)]);
    assert_eq!(BaseRemapPolicy::Remap(two.clone()).text(), "A, Left Click");
    assert_eq!(RemapPolicy::Defer.text(), "(defer to next layer)");
    assert_eq!(RemapPolicy::NoRemap.text(), "(do not remap)");
    assert_eq!(RemapPolicy::Remap(Output::new()).text(), "(block input)");
    assert_eq!(RemapPolicy::Remap(two).text(), "A, Left Click");
}

#[test]
fn joined_names() {
    assert_eq!(join_names(&Output::new()), "");
    let one = output_of(&[Button::Wheel(MouseWheelButton::Up)]);
    assert_eq!(join_names(&one), "Scroll Up");
    assert_eq!(outputs_text(&one), "Scroll Up");
    let three = output_of(&[
        Button::Key(KeyButton::Q),
        Button::Key(KeyButton::RETURN),
        Button::Mouse(MouseButton::X2),
    ]);
    assert_eq!(join_names(&three), "Q, Enter, Mouse X2");
    let held = vec![HoldButton::Key(KeyButton::A), HoldButton::Mouse(MouseButton::Right)];
    assert_eq!(join_hold_names(&held), "A, Right Click");
}

#[test]
fn defaults() {
    let config = Config::default();
    assert!(config.profiles.is_empty());
    assert!(!config.show_rare_keys);

    let profile = Profile::default();
    assert_eq!(profile.name, "New Profile");
    assert!(profile.enabled);
    assert_eq!(profile.condition, ProfileCondition::OriBFDE);
    assert!(profile.layers.is_empty());
    assert!(!profile.clip_cursor);
    assert_eq!(*profile.base.policy.get(Button::Key(KeyButton::A)), BaseRemapPolicy::NoRemap);

    let layer = Layer::default();
    assert_eq!(layer.name, "New Layer");
    assert!(layer.enabled);
    assert_eq!(layer.layer_type, LayerType::Modifier);
    assert!(layer.condition.is_empty());
    assert_eq!(*layer.policy.get(Button::Wheel(MouseWheelButton::Down)), RemapPolicy::Defer);

    let policy = default_layer_policy();
    assert_eq!(policy.values().len(), 61);
    assert!(policy.values().iter().all(|p| *p == RemapPolicy::Defer));
}

#[test]
fn layer_condition_texts() {
    let mut layer = Layer::default();
    assert_eq!(
        layer.condition_helper_text(),
        "Active when these buttons are held: (no buttons set)"
    );
    layer.condition = vec![HoldButton::Key(KeyButton::LSHIFT), HoldButton::Mouse(MouseButton::X1)];
    let shift = Button::Key(KeyButton::LSHIFT).name();
    assert_eq!(
        layer.condition_helper_text(),
        format!("Active when these buttons are held: {}, Mouse X1", shift)
    );
    layer.layer_type = LayerType::Toggle;
    assert_eq!(
        layer.condition_helper_text(),
        format!("Toggled when these buttons are pressed: {}, Mouse X1", shift)
    );
    assert_eq!(LayerType::Modifier.name(), "Modifier");
    assert_eq!(LayerType::Toggle.name(), "Toggle");
}

#[test]
fn copies_get_a_new_name() {
    let mut profile = Profile::default();
    profile.name = String::from("Game");
    profile.clip_cursor = true;
    profile.layers.push(Layer::default());
    let copy = profile.clone_new_name();
    assert_eq!(copy.name, "Game (copy)");
    assert!(copy.clip_cursor);
    assert_eq!(copy.layers.len(), 1);
    assert_eq!(copy.condition, profile.condition);

    let mut layer = Layer::default();
    layer.enabled = false;
    let layer_copy = layer.clone_new_name();
    assert_eq!(layer_copy.name, "New Layer (copy)");
    assert!(!layer_copy.enabled);
}

#[test]
fn clone_keeps_remaps() {
    let mut profile = Profile::default();
    let out = output_of(&[Button::Key(KeyButton::B)]);
    profile.base.policy.set(Button::Key(KeyButton::A), BaseRemapPolicy::Remap(out));
    let copy = profile.clone();
    assert_eq!(copy, profile);
    assert_eq!(copy.base.policy.get(Button::Key(KeyButton::A)).text(), "B");
}

#[test]
fn versioned_round_trip() {
    let mut config = Config::default();
    config.show_rare_keys = true;
    config.profiles.push(Profile::default());
    let versioned = VersionedConfig::from(config);
    let back = Config::from(versioned);
    assert!(back.show_rare_keys);
    assert_eq!(back.profiles.len(), 1);

    let profile = Profile::default();
    let back = Profile::from(VersionedProfile::from(profile));
    assert_eq!(back.name, "New Profile");
    match VersionedConfig::default() {
        VersionedConfig::V1(c) => assert!(c.profiles.is_empty()),
    }
}
