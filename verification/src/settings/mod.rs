//! A form of the configuration in which a default profile applies when no other
//! profile does and the configuration records which profile is active.
//!
//! There is one configuration. It holds profiles; each profile holds layers; each layer
//! holds remaps.

pub mod ui;

use crate::button_map::ButtonMap;
use crate::buttons::{Button, HoldButton, BUTTON_COUNT};
use crate::text::{spec_join, spec_button_names};
use vstd::prelude::*;

verus! {

// -------------------- Remaps --------------------

/// What the base layer does with one button.
#[derive(Debug, Clone, PartialEq, Eq, PartialOrd, Ord, Hash)]
pub enum BaseRemapPolicy {
    NoRemap,
    Remap(Vec<Button>),
}

impl Default for BaseRemapPolicy {
    fn default() -> (policy: Self)
        ensures
            policy == BaseRemapPolicy::NoRemap,
    {
        BaseRemapPolicy::NoRemap
    }
}

/// How a list of outputs is described: the button names, or a note that the input is blocked.
pub open spec fn spec_outputs_text(outputs: Seq<Button>) -> Seq<char> {
    if outputs.len() == 0 {
        "(block input)"@
    } else {
        spec_join(spec_button_names(outputs))
    }
}

/// The names of `buttons`, joined with ", ", or the note that the input is blocked.
pub fn outputs_text(buttons: &Vec<Button>) -> (text: String)
    ensures
        text@ == spec_outputs_text(buttons@),
{
    if buttons.len() == 0 {
        return String::from_str("(block input)");
    }
    let ghost parts = spec_button_names(buttons@);
    let mut text = String::new();
    let mut i: usize = 0;
    while i < buttons.len()
        invariant
            parts == spec_button_names(buttons@),
            parts.len() == buttons@.len(),
            i <= buttons@.len(),
            text@ == spec_join(parts.take(i as int)),
        decreases buttons@.len() - i,
    {
        if i == 0 {
            text.append(buttons[i].name());
            assert(parts.take(1) =~= seq![parts[0]]);
        } else {
            text.append(", ");
            text.append(buttons[i].name());
            assert(parts.take(i + 1).drop_last() =~= parts.take(i as int));
        }
        i = i + 1;
    }
    assert(parts.take(buttons@.len() as int) =~= parts);
    text
}

impl BaseRemapPolicy {
    /// How this policy is shown to the user.
    pub fn text(&self) -> (text: String)
        ensures
            text@ == match self {
                BaseRemapPolicy::NoRemap => "(do not remap)"@,
                BaseRemapPolicy::Remap(outputs) => spec_outputs_text(outputs@),
            },
    {
        match self {
            BaseRemapPolicy::NoRemap => String::from_str("(do not remap)"),
            BaseRemapPolicy::Remap(outputs) => outputs_text(outputs),
        }
    }
}

/// What a layer does with one button.
#[derive(Debug, Clone, PartialEq, Eq, PartialOrd, Ord, Hash)]
pub enum RemapPolicy {
    Defer,
    NoRemap,
    Remap(Vec<Button>),
}

impl Default for RemapPolicy {
    fn default() -> (policy: Self)
        ensures
            policy == RemapPolicy::Defer,
    {
        RemapPolicy::Defer
    }
}

impl RemapPolicy {
    /// How this policy is shown to the user.
    pub fn text(&self) -> (text: String)
        ensures
            text@ == match self {
                RemapPolicy::Defer => "(defer to next layer)"@,
                RemapPolicy::NoRemap => "(do not remap)"@,
                RemapPolicy::Remap(outputs) => spec_outputs_text(outputs@),
            },
    {
        match self {
            RemapPolicy::Defer => String::from_str("(defer to next layer)"),
            RemapPolicy::NoRemap => String::from_str("(do not remap)"),
            RemapPolicy::Remap(outputs) => outputs_text(outputs),
        }
    }
}

// -------------------- Layers --------------------

/// What a profile does with each button when no other layer overrides it.
#[derive(Debug, PartialEq, Eq, PartialOrd, Ord, Hash)]
pub struct BaseLayer {
    pub policy: ButtonMap<BaseRemapPolicy>,
}

impl Default for BaseLayer {
    fn default() -> (layer: Self)
        ensures
            forall|b: Button| #[trigger] layer.policy.spec_get(b) == BaseRemapPolicy::NoRemap,
    {
        let mut values: Vec<BaseRemapPolicy> = Vec::new();
        let mut i: usize = 0;
        while i < BUTTON_COUNT
            invariant
                i <= BUTTON_COUNT,
                values@.len() == i,
                forall|j: int| 0 <= j < i ==> #[trigger] values@[j] == BaseRemapPolicy::NoRemap,
            decreases BUTTON_COUNT - i,
        {
            values.push(BaseRemapPolicy::NoRemap);
            i = i + 1;
        }
        let policy = ButtonMap::from_vec(values).unwrap();
        proof {
            assert forall|b: Button| #[trigger] policy.spec_get(b) == BaseRemapPolicy::NoRemap by {
                crate::button_map::lemma_values_at_index(policy, b);
                crate::buttons::lemma_button_index_roundtrip(b);
            }
        }
        BaseLayer { policy }
    }
}

/// A policy map that defers every button.
pub fn default_layer_policy() -> (policy: ButtonMap<RemapPolicy>)
    ensures
        forall|b: Button| #[trigger] policy.spec_get(b) == RemapPolicy::Defer,
{
    let mut values: Vec<RemapPolicy> = Vec::new();
    let mut i: usize = 0;
    while i < BUTTON_COUNT
        invariant
            i <= BUTTON_COUNT,
            values@.len() == i,
            forall|j: int| 0 <= j < i ==> #[trigger] values@[j] == RemapPolicy::Defer,
        decreases BUTTON_COUNT - i,
    {
        values.push(RemapPolicy::Defer);
        i = i + 1;
    }
    let policy = ButtonMap::from_vec(values).unwrap();
    proof {
        assert forall|b: Button| #[trigger] policy.spec_get(b) == RemapPolicy::Defer by {
            crate::button_map::lemma_values_at_index(policy, b);
            crate::buttons::lemma_button_index_roundtrip(b);
        }
    }
    policy
}

/// How a layer's buttons turn it on.
#[derive(Debug, Clone, Copy, PartialEq, Eq, PartialOrd, Ord, Hash, Structural)]
pub enum LayerType {
    Modifier,
    Toggle,
}

/// A layer; `active` tells whether it is in effect right now.
#[derive(Debug, PartialEq, Eq, PartialOrd, Ord, Hash)]
pub struct Layer {
    pub active: bool,
    pub layer_type: LayerType,
    pub condition: Vec<HoldButton>,
    pub policy: ButtonMap<RemapPolicy>,
}

// -------------------- Profiles --------------------

/// When a profile applies.
#[derive(Debug, PartialEq, Eq, PartialOrd, Ord, Hash)]
pub enum ProfileCondition {
    OriBF,
    OriWotW,
    Other(String),
}

impl Clone for ProfileCondition {
    fn clone(&self) -> (copy: Self)
        ensures
            copy == *self,
    {
        match self {
            ProfileCondition::OriBF => ProfileCondition::OriBF,
            ProfileCondition::OriWotW => ProfileCondition::OriWotW,
            ProfileCondition::Other(s) => ProfileCondition::Other(s.clone()),
        }
    }
}

/// The profile that applies when no other profile does.
#[derive(Debug, PartialEq, Eq, PartialOrd, Ord, Hash)]
pub struct DefaultProfile {
    pub base: BaseLayer,
    pub layers: Vec<Layer>,
}

impl Default for DefaultProfile {
    fn default() -> (profile: Self)
        ensures
            forall|b: Button| #[trigger] profile.base.policy.spec_get(b) == BaseRemapPolicy::NoRemap,
            profile.layers@.len() == 0,
    {
        DefaultProfile { base: BaseLayer::default(), layers: Vec::new() }
    }
}

/// A profile and the condition under which it applies.
#[derive(Debug, PartialEq, Eq, PartialOrd, Ord, Hash)]
pub struct Profile {
    pub base: BaseLayer,
    pub layers: Vec<Layer>,
    pub condition: ProfileCondition,
}

// -------------------- Config --------------------

/// The profiles, their conditions, and which profile is active (`None`: the default one).
#[derive(Debug, PartialEq, Eq, PartialOrd, Ord, Hash)]
pub struct Config {
    pub default: DefaultProfile,
    pub profiles: Vec<Profile>,
    pub profile_conditions: Vec<ProfileCondition>,
    pub active_profile: Option<usize>,
}

impl Default for Config {
    fn default() -> (config: Self)
        ensures
            forall|b: Button| #[trigger] config.default.base.policy.spec_get(b) == BaseRemapPolicy::NoRemap,
            config.default.layers@.len() == 0,
            config.profiles@.len() == 0,
            config.profile_conditions@.len() == 0,
            config.active_profile is None,
    {
        Config {
            default: DefaultProfile::default(),
            profiles: Vec::new(),
            profile_conditions: Vec::new(),
            active_profile: None,
        }
    }
}

impl Config {
    /// The active profile names a profile that exists.
    pub open spec fn active_profile_exists(&self) -> bool {
        self.active_profile matches Some(i) ==> i < self.profiles@.len()
    }

    /// The base layer of the active profile, or of the default profile when none is active.
    pub open spec fn spec_active_base_layer(&self) -> BaseLayer {
        match self.active_profile {
            Some(i) => self.profiles@[i as int].base,
            None => self.default.base,
        }
    }

    /// The layers of the active profile, or of the default profile when none is active.
    pub open spec fn spec_active_layers(&self) -> Vec<Layer> {
        match self.active_profile {
            Some(i) => self.profiles@[i as int].layers,
            None => self.default.layers,
        }
    }

    /// The base layer of the active profile, or of the default profile.
    pub fn get_active_base_layer(&self) -> (base: &BaseLayer)
        requires
            self.active_profile_exists(),
        ensures
            *base == self.spec_active_base_layer(),
    {
        if let Some(active_profile_idx) = self.active_profile {
            &self.profiles[active_profile_idx].base
        } else {
            &self.default.base
        }
    }

    /// The base layer of the active profile, or of the default profile, for editing.
    pub fn get_active_base_layer_mut(&mut self) -> (base: &mut BaseLayer)
        requires
            old(self).active_profile_exists(),
        ensures
            *base == old(self).spec_active_base_layer(),
            final(self).active_profile == old(self).active_profile,
            final(self).profile_conditions == old(self).profile_conditions,
            match old(self).active_profile {
                Some(i) => {
                    &&& final(self).default == old(self).default
                    &&& final(self).profiles@ == old(self).profiles@.update(
                        i as int,
                        (Profile { base: *final(base), ..old(self).profiles@[i as int] }),
                    )
                },
                None => {
                    &&& final(self).profiles == old(self).profiles
                    &&& final(self).default == (DefaultProfile {
                        base: *final(base),
                        ..old(self).default
                    })
                },
            },
    {
        match self.active_profile {
            Some(active_profile_idx) => &mut self.profiles[active_profile_idx].base,
            None => &mut self.default.base,
        }
    }

    /// The layers of the active profile, or of the default profile, for editing.
    pub fn get_active_layers_mut(&mut self) -> (layers: &mut Vec<Layer>)
        requires
            old(self).active_profile_exists(),
        ensures
            *layers == old(self).spec_active_layers(),
            final(self).active_profile == old(self).active_profile,
            final(self).profile_conditions == old(self).profile_conditions,
            match old(self).active_profile {
                Some(i) => {
                    &&& final(self).default == old(self).default
                    &&& final(self).profiles@ == old(self).profiles@.update(
                        i as int,
                        (Profile { layers: *final(layers), ..old(self).profiles@[i as int] }),
                    )
                },
                None => {
                    &&& final(self).profiles == old(self).profiles
                    &&& final(self).default == (DefaultProfile {
                        layers: *final(layers),
                        ..old(self).default
                    })
                },
            },
    {
        match self.active_profile {
            Some(active_profile_idx) => &mut self.profiles[active_profile_idx].layers,
            None => &mut self.default.layers,
        }
    }

    /// The layers of the active profile, or of the default profile.
    pub fn get_active_layers(&self) -> (layers: &Vec<Layer>)
        requires
            self.active_profile_exists(),
        ensures
            *layers == self.spec_active_layers(),
    {
        if let Some(active_profile_idx) = self.active_profile {
            &self.profiles[active_profile_idx].layers
        } else {
            &self.default.layers
        }
    }
}

} // verus!
