//! The editable form of the configuration in `settings`, in which profiles and layers carry a name
//! and an enabled flag that the applied configuration drops.

use crate::button_map::ButtonMap;
use crate::buttons::{Button, HoldButton};
use crate::seq_filter::{filtered, lemma_filtered_step};
use crate::settings::{
    default_layer_policy, BaseLayer, Config, DefaultProfile, Layer, LayerType, Profile,
    ProfileCondition, RemapPolicy,
};
use vstd::prelude::*;

verus! {

/// A layer as the user edits it.
#[derive(Debug, PartialEq, Eq, PartialOrd, Ord, Hash)]
pub struct LayerUI {
    pub layer_type: LayerType,
    pub condition: Vec<HoldButton>,
    pub policy: ButtonMap<RemapPolicy>,
    pub enabled: bool,
    pub name: String,
}

impl Default for LayerUI {
    fn default() -> (layer: Self)
        ensures
            layer.enabled,
            layer.layer_type == LayerType::Modifier,
            layer.condition@.len() == 0,
            forall|b: Button| #[trigger] layer.policy.spec_get(b) == RemapPolicy::Defer,
            layer.name@ == "New Layer"@,
    {
        LayerUI {
            enabled: true,
            layer_type: LayerType::Modifier,
            condition: Vec::new(),
            policy: default_layer_policy(),
            name: String::from_str("New Layer"),
        }
    }
}

/// The applied layer for an enabled edited layer: not active yet, same type, condition and
/// remaps.
pub open spec fn spec_layer_from_ui(layer: LayerUI) -> Layer {
    Layer {
        active: false,
        layer_type: layer.layer_type,
        condition: layer.condition,
        policy: layer.policy,
    }
}

impl TryFrom<LayerUI> for Layer {
    type Error = ();

    fn try_from(value: LayerUI) -> Result<Self, ()> {
        if !value.enabled {
            Err(())
        } else {
            Ok(Layer {
                active: false,
                layer_type: value.layer_type,
                condition: value.condition,
                policy: value.policy,
            })
        }
    }
}

impl vstd::std_specs::convert::TryFromSpecImpl<LayerUI> for Layer {
    open spec fn obeys_try_from_spec() -> bool {
        true
    }

    open spec fn try_from_spec(v: LayerUI) -> Result<Self, ()> {
        if !v.enabled {
            Err(())
        } else {
            Ok(spec_layer_from_ui(v))
        }
    }
}

/// Whether an edited layer is enabled.
pub open spec fn layer_enabled(layer: LayerUI) -> bool {
    layer.enabled
}

/// The applied layers for the enabled edited layers, in order; disabled layers are dropped.
pub open spec fn spec_enabled_layers(layers: Seq<LayerUI>) -> Seq<Layer> {
    filtered(layers, |l: LayerUI| layer_enabled(l)).map_values(|l: LayerUI| spec_layer_from_ui(l))
}

/// Converts the enabled layers, in order, and drops the rest.
pub fn enabled_layers(layers: Vec<LayerUI>) -> (applied: Vec<Layer>)
    ensures
        applied@ == spec_enabled_layers(layers@),
{
    let ghost keep = |l: LayerUI| layer_enabled(l);
    let ghost all = layers@;
    let mut rest = layers;
    let total: usize = rest.len();
    let mut applied: Vec<Layer> = Vec::new();
    let mut i: usize = 0;
    while rest.len() > 0
        invariant
            all.len() == total,
            keep == (|l: LayerUI| layer_enabled(l)),
            rest@ == all.skip(i as int),
            i <= all.len(),
            applied@ == filtered(all.take(i as int), keep).map_values(|l: LayerUI| spec_layer_from_ui(l)),
        decreases rest@.len(),
    {
        let layer = rest.remove(0);
        proof {
            lemma_filtered_step(all, keep, i as int);
            assert(all[i as int] == layer);
        }
        if layer.enabled {
            let ghost before = applied@;
            applied.push(Layer {
                active: false,
                layer_type: layer.layer_type,
                condition: layer.condition,
                policy: layer.policy,
            });
            proof {
                assert(applied@ =~= filtered(all.take(i + 1), keep).map_values(|l: LayerUI| spec_layer_from_ui(l)));
            }
        } else {
            proof {
                assert(filtered(all.take(i + 1), keep) == filtered(all.take(i as int), keep));
            }
        }
        proof {
            assert(rest@ =~= all.skip(i + 1));
        }
        i = i + 1;
    }
    proof {
        assert(all.take(i as int) =~= all);
    }
    applied
}

/// A profile as the user edits it.
#[derive(Debug, PartialEq, Eq, PartialOrd, Ord, Hash)]
pub struct ProfileUI {
    pub base: BaseLayer,
    pub layers: Vec<LayerUI>,
    pub condition: ProfileCondition,
    pub enabled: bool,
    pub name: String,
}

impl Default for ProfileUI {
    fn default() -> (profile: Self)
        ensures
            profile.layers@.len() == 0,
            profile.condition == ProfileCondition::OriBF,
            profile.enabled,
            profile.name@ == "New Profile"@,
    {
        ProfileUI {
            base: BaseLayer::default(),
            layers: Vec::new(),
            condition: ProfileCondition::OriBF,
            enabled: true,
            name: String::from_str("New Profile"),
        }
    }
}

/// `profile` is what the edited `ui` profile becomes: same base layer and condition, and
/// its enabled layers.
pub open spec fn profile_converted(ui: ProfileUI, profile: Profile) -> bool {
    &&& profile.base == ui.base
    &&& profile.layers@ == spec_enabled_layers(ui.layers@)
    &&& profile.condition == ui.condition
}

/// Converts an edited profile; a disabled profile gives an error.
pub fn profile_from_ui(value: ProfileUI) -> (profile: Result<Profile, ()>)
    ensures
        value.enabled ==> (profile matches Ok(p) && profile_converted(value, p)),
        !value.enabled ==> profile == Err::<Profile, ()>(()),
{
    if !value.enabled {
        Err(())
    } else {
        let ghost ui = value;
        let layers = enabled_layers(value.layers);
        Ok(Profile { base: value.base, layers, condition: value.condition })
    }
}

/// The edited profile that belongs to the default slot.
#[derive(Debug, PartialEq, Eq, PartialOrd, Ord, Hash)]
pub struct DefaultProfileUI {
    pub base: BaseLayer,
    pub layers: Vec<LayerUI>,
}

impl Default for DefaultProfileUI {
    fn default() -> (profile: Self)
        ensures
            profile.layers@.len() == 0,
    {
        DefaultProfileUI { base: BaseLayer::default(), layers: Vec::new() }
    }
}

/// Converts the edited default profile: its base layer and its enabled layers.
pub fn default_profile_from_ui(value: DefaultProfileUI) -> (profile: DefaultProfile)
    ensures
        profile.base == value.base,
        profile.layers@ == spec_enabled_layers(value.layers@),
{
    let layers = enabled_layers(value.layers);
    DefaultProfile { base: value.base, layers }
}

/// The configuration as the user edits it.
#[derive(Debug, PartialEq, Eq, PartialOrd, Ord, Hash)]
pub struct ConfigUI {
    pub default: DefaultProfileUI,
    pub profiles: Vec<ProfileUI>,
}

impl Default for ConfigUI {
    fn default() -> (config: Self)
        ensures
            config.default.layers@.len() == 0,
            config.profiles@.len() == 0,
    {
        ConfigUI { default: DefaultProfileUI::default(), profiles: Vec::new() }
    }
}

/// Whether an edited profile is enabled.
pub open spec fn profile_enabled(profile: ProfileUI) -> bool {
    profile.enabled
}

/// Converts the edited configuration: the default profile, the enabled profiles in order,
/// the conditions of every profile (disabled ones included) in order, and no active profile.
pub fn config_from_ui(value: ConfigUI) -> (config: Config)
    ensures
        config.default.base == value.default.base,
        config.default.layers@ == spec_enabled_layers(value.default.layers@),
        config.profiles@.len() == filtered(value.profiles@, |p: ProfileUI| profile_enabled(p)).len(),
        forall|i: int|
            0 <= i < config.profiles@.len() ==> profile_converted(
                filtered(value.profiles@, |p: ProfileUI| profile_enabled(p))[i],
                #[trigger] config.profiles@[i],
            ),
        config.profile_conditions@ == value.profiles@.map_values(|p: ProfileUI| p.condition),
        config.active_profile is None,
{
    let ghost keep = |p: ProfileUI| profile_enabled(p);
    let ghost all = value.profiles@;
    let default = default_profile_from_ui(value.default);
    let mut rest = value.profiles;
    let total: usize = rest.len();
    let mut profiles: Vec<Profile> = Vec::new();
    let mut conditions: Vec<ProfileCondition> = Vec::new();
    let mut i: usize = 0;
    while rest.len() > 0
        invariant
            all.len() == total,
            keep == (|p: ProfileUI| profile_enabled(p)),
            rest@ == all.skip(i as int),
            i <= all.len(),
            profiles@.len() == filtered(all.take(i as int), keep).len(),
            forall|j: int|
                0 <= j < profiles@.len() ==> profile_converted(
                    filtered(all.take(i as int), keep)[j],
                    #[trigger] profiles@[j],
                ),
            conditions@ == all.take(i as int).map_values(|p: ProfileUI| p.condition),
        decreases rest@.len(),
    {
        let profile = rest.remove(0);
        proof {
            lemma_filtered_step(all, keep, i as int);
            assert(all[i as int] == profile);
        }
        conditions.push(profile.condition.clone());
        proof {
            assert(conditions@ =~= all.take(i + 1).map_values(|p: ProfileUI| p.condition));
        }
        if profile.enabled {
            let ghost ui = profile;
            let converted = profile_from_ui(profile);
            match converted {
                Ok(p) => {
                    profiles.push(p);
                },
                Err(_) => {},
            }
        }
        proof {
            assert(rest@ =~= all.skip(i + 1));
        }
        i = i + 1;
    }
    proof {
        assert(all.take(i as int) =~= all);
    }
    Config { default, profiles, profile_conditions: conditions, active_profile: None }
}

} // verus!
