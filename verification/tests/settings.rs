use reemap::buttons::key::KeyButton;
use reemap::buttons::mouse::MouseButton;
use reemap::buttons::{Button, HoldButton};
use reemap::settings::ui::{
    config_from_ui, default_profile_from_ui, enabled_layers, profile_from_ui, ConfigUI,
    DefaultProfileUI, LayerUI, ProfileUI,
};
use reemap::settings::{
    outputs_text, BaseRemapPolicy, Config, Layer, LayerType, ProfileCondition, RemapPolicy,
};

fn layer_ui(enabled: bool, held: HoldButton) -> LayerUI {
    let mut layer = LayerUI::default();
    layer.enabled = enabled;
    layer.condition.push(held);
    layer
}

fn profile_ui(enabled: bool, condition: ProfileCondition, layers: Vec<LayerUI>) -> ProfileUI {
    let mut profile = ProfileUI::default();
    profile.enabled = enabled;
    profile.condition = condition;
    profile.layers = layers;
    profile
}

#[test]
fn texts() {
    assert_eq!(BaseRemapPolicy::NoRemap.text(), "(do not remap)");
    assert_eq!(BaseRemapPolicy::Remap(Vec::new()).text(), "(block input)");
    assert_eq!(RemapPolicy::Defer.text(), "(defer to next layer)");
    assert_eq!(RemapPolicy::NoRemap.text(), "(do not remap)");
    let buttons = vec![Button::Key(KeyButton::A), Button::Mouse(MouseButton::Middle)];
    assert_eq!(outputs_text(&buttons), "A, Middle Click");
    assert_eq!(RemapPolicy::Remap(buttons).text(), "A, Middle Click");
}

#[test]
fn layer_conversion_drops_disabled() {
    let converted = Layer::try_from(layer_ui(true, HoldButton::Key(KeyButton::A)));
    let converted = converted.unwrap();
    assert!(!converted.active);
    assert_eq!(converted.layer_type, LayerType::Modifier);
    assert_eq!(converted.condition, vec![HoldButton::Key(KeyButton::A)]);
    assert!(Layer::try_from(layer_ui(false, HoldButton::Key(KeyButton::A))).is_err());

    let layers = enabled_layers(vec![
        layer_ui(true, HoldButton::Key(KeyButton::A)),
        layer_ui(false, HoldButton::Key(KeyButton::B)),
        layer_ui(true, HoldButton::Key(KeyButton::C)),
    ]);
    assert_eq!(layers.len(), 2);
    assert_eq!(layers[0].condition, vec![HoldButton::Key(KeyButton::A)]);
    assert_eq!(layers[1].condition, vec![HoldButton::Key(KeyButton::C)]);
}

#[test]
fn profile_conversion() {
    let ui = profile_ui(
        true,
        ProfileCondition::Other(String::from("game.exe")),
        vec![layer_ui(false, HoldButton::Key(KeyButton::A))],
    );
    let profile = profile_from_ui(ui).unwrap();
    assert!(profile.layers.is_empty());
    assert_eq!(profile.condition, ProfileCondition::Other(String::from("game.exe")));
    assert_eq!(profile_from_ui(profile_ui(false, ProfileCondition::OriBF, Vec::new())), Err(()));

    let mut default = DefaultProfileUI::default();
    default.layers.push(layer_ui(true, HoldButton::Mouse(MouseButton::X1)));
    let default = default_profile_from_ui(default);
    assert_eq!(default.layers.len(), 1);
}

#[test]
fn config_conversion_keeps_all_conditions() {
    let mut ui = ConfigUI::default();
    ui.profiles.push(profile_ui(true, ProfileCondition::OriBF, Vec::new()));
    ui.profiles.push(profile_ui(false, ProfileCondition::OriWotW, Vec::new()));
    ui.profiles.push(profile_ui(
        true,
        ProfileCondition::Other(String::from("x")),
        vec![layer_ui(true, HoldButton::Key(KeyButton::A))],
    ));
    let config = config_from_ui(ui);
    assert_eq!(config.profiles.len(), 2);
    assert_eq!(config.profiles[0].condition, ProfileCondition::OriBF);
    assert_eq!(config.profiles[1].layers.len(), 1);
    assert_eq!(
        config.profile_conditions,
        vec![
            ProfileCondition::OriBF,
            ProfileCondition::OriWotW,
            ProfileCondition::Other(String::from("x")),
        ]
    );
    assert_eq!(config.active_profile, None);
}

#[test]
fn active_profile_lookup() {
    let mut ui = ConfigUI::default();
    ui.default.layers.push(layer_ui(true, HoldButton::Key(KeyButton::Z)));
    ui.profiles.push(profile_ui(true, ProfileCondition::OriBF, Vec::new()));
    let mut config = config_from_ui(ui);
    assert_eq!(config.get_active_layers().len(), 1);
    config.profiles[0]
        .base
        .policy
        .set(Button::Key(KeyButton::A), BaseRemapPolicy::Remap(Vec::new()));
    assert_eq!(
        *config.get_active_base_layer().policy.get(Button::Key(KeyButton::A)),
        BaseRemapPolicy::NoRemap
    );
    config.active_profile = Some(0);
    assert!(config.get_active_layers().is_empty());
    assert_eq!(
        *config.get_active_base_layer().policy.get(Button::Key(KeyButton::A)),
        BaseRemapPolicy::Remap(Vec::new())
    );
    let fresh = Config::default();
    assert!(fresh.profiles.is_empty());
    assert_eq!(fresh.active_profile, None);
}

#[test]
fn active_profile_editing() {
    let mut ui = ConfigUI::default();
    ui.profiles.push(profile_ui(true, ProfileCondition::OriBF, Vec::new()));
    let mut config = config_from_ui(ui);

    config.get_active_layers_mut().push(Layer::try_from(layer_ui(true, HoldButton::Key(KeyButton::A))).unwrap());
    assert_eq!(config.default.layers.len(), 1);
    assert!(config.profiles[0].layers.is_empty());

    config.active_profile = Some(0);
    config
        .get_active_base_layer_mut()
        .policy
        .set(Button::Key(KeyButton::B), BaseRemapPolicy::Remap(vec![Button::Key(KeyButton::C)]));
    assert_eq!(
        *config.profiles[0].base.policy.get(Button::Key(KeyButton::B)),
        BaseRemapPolicy::Remap(vec![Button::Key(KeyButton::C)])
    );
    assert_eq!(*config.default.base.policy.get(Button::Key(KeyButton::B)), BaseRemapPolicy::NoRemap);
    config.get_active_layers_mut().clear();
    assert_eq!(config.default.layers.len(), 1);
}
