//! The remap configuration: profiles, their layers, and what each layer does to each button.
//!
//! There is one configuration. It holds profiles; a profile applies when its window is in
//! the foreground. Each profile has a base layer and further layers that override it.

use crate::button_map::ButtonMap;
use crate::buttons::{Button, HoldButton, BUTTON_COUNT};
use crate::output::{output_items, Output};
use crate::text::{join_names, spec_join_names};
use vstd::prelude::*;

verus! {

// -------------------- VersionedConfig --------------------

/// A configuration tagged with the format version it was written in.
#[derive(Debug, PartialEq, Eq, PartialOrd, Ord, Hash)]
pub enum VersionedConfig {
    V1(Config),
}

impl Default for VersionedConfig {
    fn default() -> (config: Self)
        ensures
            config matches VersionedConfig::V1(c) && c.profiles@.len() == 0 && !c.show_rare_keys,
    {
        VersionedConfig::V1(Config::default())
    }
}

impl From<Config> for VersionedConfig {
    fn from(value: Config) -> Self {
        VersionedConfig::V1(value)
    }
}

impl vstd::std_specs::convert::FromSpecImpl<Config> for VersionedConfig {
    open spec fn obeys_from_spec() -> bool {
        true
    }

    open spec fn from_spec(v: Config) -> Self {
        VersionedConfig::V1(v)
    }
}

impl From<VersionedConfig> for Config {
    fn from(value: VersionedConfig) -> Self {
        match value {
            VersionedConfig::V1(config) => config,
        }
    }
}

impl vstd::std_specs::convert::FromSpecImpl<VersionedConfig> for Config {
    open spec fn obeys_from_spec() -> bool {
        true
    }

    open spec fn from_spec(v: VersionedConfig) -> Self {
        match v {
            VersionedConfig::V1(config) => config,
        }
    }
}

// -------------------- Config --------------------

/// Every profile, in priority order, and the global settings.
#[derive(Debug, PartialEq, Eq, PartialOrd, Ord, Hash)]
pub struct Config {
    pub profiles: Vec<Profile>,
    /// Whether the tables should also list unusual keys. The setting is kept and saved, but
    /// this crate has no classification of keys, so the tables list every key either way.
    pub show_rare_keys: bool,
}

impl Default for Config {
    fn default() -> (config: Self)
        ensures
            config.profiles@.len() == 0,
            !config.show_rare_keys,
    {
        Config { profiles: Vec::new(), show_rare_keys: false }
    }
}

// -------------------- VersionedProfile --------------------

/// A profile tagged with the format version it was written in; profiles are shared on their
/// own, so they carry a version too.
#[derive(Debug, PartialEq, Eq, PartialOrd, Ord, Hash)]
pub enum VersionedProfile {
    V1(Profile),
}

impl From<Profile> for VersionedProfile {
    fn from(value: Profile) -> Self {
        VersionedProfile::V1(value)
    }
}

impl vstd::std_specs::convert::FromSpecImpl<Profile> for VersionedProfile {
    open spec fn obeys_from_spec() -> bool {
        true
    }

    open spec fn from_spec(v: Profile) -> Self {
        VersionedProfile::V1(v)
    }
}

impl From<VersionedProfile> for Profile {
    fn from(value: VersionedProfile) -> Self {
        match value {
            VersionedProfile::V1(profile) => profile,
        }
    }
}

impl vstd::std_specs::convert::FromSpecImpl<VersionedProfile> for Profile {
    open spec fn obeys_from_spec() -> bool {
        true
    }

    open spec fn from_spec(v: VersionedProfile) -> Self {
        match v {
            VersionedProfile::V1(profile) => profile,
        }
    }
}

// -------------------- Views --------------------

/// What a configuration holds, as mathematical values.
pub struct ConfigView {
    pub profiles: Seq<ProfileView>,
    pub show_rare_keys: bool,
}

/// What a profile holds, as mathematical values.
pub struct ProfileView {
    pub name: Seq<char>,
    pub enabled: bool,
    pub condition: ProfileConditionView,
    pub base: Map<Button, BaseRemapPolicyView>,
    pub layers: Seq<LayerView>,
    pub clip_cursor: bool,
}

/// What a layer holds, as mathematical values.
pub struct LayerView {
    pub name: Seq<char>,
    pub enabled: bool,
    pub layer_type: LayerType,
    pub condition: Seq<HoldButton>,
    pub policy: Map<Button, RemapPolicyView>,
}

/// When a profile applies, with its texts as character sequences.
pub enum ProfileConditionView {
    Always,
    TitleAndProcess { title: Seq<char>, process: Seq<char> },
    Title { title: Seq<char> },
    Process { process: Seq<char> },
    OriBF,
    OriBFDE,
    OriWotW,
}

impl View for ProfileCondition {
    type V = ProfileConditionView;

    open spec fn view(&self) -> ProfileConditionView {
        match self {
            ProfileCondition::Always => ProfileConditionView::Always,
            ProfileCondition::TitleAndProcess { title, process } =>
                ProfileConditionView::TitleAndProcess { title: title@, process: process@ },
            ProfileCondition::Title { title } => ProfileConditionView::Title { title: title@ },
            ProfileCondition::Process { process } => ProfileConditionView::Process {
                process: process@,
            },
            ProfileCondition::OriBF => ProfileConditionView::OriBF,
            ProfileCondition::OriBFDE => ProfileConditionView::OriBFDE,
            ProfileCondition::OriWotW => ProfileConditionView::OriWotW,
        }
    }
}

/// A sentence that says when a profile with this condition is active.
pub open spec fn spec_condition_text(condition: ProfileConditionView) -> Seq<char> {
    match condition {
        ProfileConditionView::Always => "Always active"@,
        ProfileConditionView::TitleAndProcess { title, process } => "Active when "@ + title + " ("@
            + process + ") is in focus"@,
        ProfileConditionView::Title { title } => "Active when "@ + title + " is in focus"@,
        ProfileConditionView::Process { process } => "Active when the process "@ + process
            + " is in focus"@,
        ProfileConditionView::OriBF => "Active when Ori and the Blind Forest is in focus"@,
        ProfileConditionView::OriBFDE =>
            "Active when Ori and the Blind Forest: Definitive Edition is in focus"@,
        ProfileConditionView::OriWotW => "Active when Ori and the Will of the Wisps is in focus"@,
    }
}

/// What the base layer does with one button.
pub enum BaseRemapPolicyView {
    NoRemap,
    Remap(Seq<Button>),
}

/// What a layer does with one button.
pub enum RemapPolicyView {
    Defer,
    NoRemap,
    Remap(Seq<Button>),
}

impl View for Config {
    type V = ConfigView;

    open spec fn view(&self) -> ConfigView {
        ConfigView {
            profiles: self.profiles@.map_values(|p: Profile| p@),
            show_rare_keys: self.show_rare_keys,
        }
    }
}

impl View for Profile {
    type V = ProfileView;

    open spec fn view(&self) -> ProfileView {
        ProfileView {
            name: self.name@,
            enabled: self.enabled,
            condition: self.condition@,
            base: self.base.policy@,
            layers: self.layers@.map_values(|l: Layer| l@),
            clip_cursor: self.clip_cursor,
        }
    }
}

impl View for Layer {
    type V = LayerView;

    open spec fn view(&self) -> LayerView {
        LayerView {
            name: self.name@,
            enabled: self.enabled,
            layer_type: self.layer_type,
            condition: self.condition@,
            policy: self.policy@,
        }
    }
}

impl View for BaseRemapPolicy {
    type V = BaseRemapPolicyView;

    open spec fn view(&self) -> BaseRemapPolicyView {
        match self {
            BaseRemapPolicy::NoRemap => BaseRemapPolicyView::NoRemap,
            BaseRemapPolicy::Remap(output) => BaseRemapPolicyView::Remap(output_items(*output)),
        }
    }
}

impl View for RemapPolicy {
    type V = RemapPolicyView;

    open spec fn view(&self) -> RemapPolicyView {
        match self {
            RemapPolicy::Defer => RemapPolicyView::Defer,
            RemapPolicy::NoRemap => RemapPolicyView::NoRemap,
            RemapPolicy::Remap(output) => RemapPolicyView::Remap(output_items(*output)),
        }
    }
}

// -------------------- Profile --------------------

/// A set of remaps that applies while a matching window is in the foreground.
#[derive(Debug, PartialEq, Eq, PartialOrd, Ord, Hash)]
pub struct Profile {
    pub name: String,
    pub enabled: bool,
    pub condition: ProfileCondition,
    pub base: BaseLayer,
    pub layers: Vec<Layer>,
    /// Keep the cursor inside the window while this profile is active.
    pub clip_cursor: bool,
}

impl Default for Profile {
    fn default() -> (profile: Self)
        ensures
            profile.name@ == "New Profile"@,
            profile.enabled,
            profile.condition@ == ProfileConditionView::OriBFDE,
            forall|b: Button| #[trigger] profile.base.policy@[b] == BaseRemapPolicyView::NoRemap,
            profile.layers@.len() == 0,
            !profile.clip_cursor,
    {
        Profile {
            name: String::from_str("New Profile"),
            enabled: true,
            condition: ProfileCondition::OriBFDE,
            base: BaseLayer::default(),
            layers: Vec::new(),
            clip_cursor: false,
        }
    }
}

impl Clone for Profile {
    fn clone(&self) -> (copy: Self)
        ensures
            copy@ == self@,
    {
        let layers = self.layers.clone();
        proof {
            assert forall|i: int| 0 <= i < self.layers@.len() implies layers@[i]@
                == self.layers@[i]@ by {
                assert(cloned::<Layer>(self.layers@[i], layers@[i]));
            }
            assert(layers@.map_values(|l: Layer| l@) =~= self.layers@.map_values(|l: Layer| l@));
        }
        Profile {
            name: self.name.clone(),
            enabled: self.enabled,
            condition: self.condition.clone(),
            base: self.base.clone(),
            layers,
            clip_cursor: self.clip_cursor,
        }
    }
}

impl Profile {
    /// A copy of this profile whose name marks it as a copy.
    pub fn clone_new_name(&self) -> (copy: Self)
        ensures
            copy@ == (ProfileView { name: self.name@ + " (copy)"@, ..self@ }),
    {
        let mut copy = self.clone();
        copy.name.append(" (copy)");
        copy
    }
}

// -------------------- ProfileCondition --------------------

/// When a profile applies.
#[derive(Debug, PartialEq, Eq, PartialOrd, Ord, Hash)]
pub enum ProfileCondition {
    // custom
    Always,
    TitleAndProcess { title: String, process: String },
    Title { title: String },
    Process { process: String },
    // presets
    OriBF,
    OriBFDE,
    OriWotW,
}

impl Clone for ProfileCondition {
    fn clone(&self) -> (copy: Self)
        ensures
            copy == *self,
    {
        match self {
            ProfileCondition::Always => ProfileCondition::Always,
            ProfileCondition::TitleAndProcess { title, process } => ProfileCondition::TitleAndProcess {
                title: title.clone(),
                process: process.clone(),
            },
            ProfileCondition::Title { title } => ProfileCondition::Title { title: title.clone() },
            ProfileCondition::Process { process } => ProfileCondition::Process {
                process: process.clone(),
            },
            ProfileCondition::OriBF => ProfileCondition::OriBF,
            ProfileCondition::OriBFDE => ProfileCondition::OriBFDE,
            ProfileCondition::OriWotW => ProfileCondition::OriWotW,
        }
    }
}

impl ProfileCondition {
    /// A sentence that says when a profile with this condition is active.
    pub open spec fn spec_helper_text(&self) -> Seq<char> {
        spec_condition_text(self@)
    }

    /// A sentence that says when a profile with this condition is active.
    pub fn helper_text(&self) -> (text: String)
        ensures
            text@ == self.spec_helper_text(),
    {
        match self {
            ProfileCondition::Always => String::from_str("Always active"),
            ProfileCondition::TitleAndProcess { title, process } => {
                let mut text = String::from_str("Active when ");
                text.append(title.as_str());
                text.append(" (");
                text.append(process.as_str());
                text.append(") is in focus");
                text
            },
            ProfileCondition::Title { title } => {
                let mut text = String::from_str("Active when ");
                text.append(title.as_str());
                text.append(" is in focus");
                text
            },
            ProfileCondition::Process { process } => {
                let mut text = String::from_str("Active when the process ");
                text.append(process.as_str());
                text.append(" is in focus");
                text
            },
            ProfileCondition::OriBF => String::from_str(
                "Active when Ori and the Blind Forest is in focus",
            ),
            ProfileCondition::OriBFDE => String::from_str(
                "Active when Ori and the Blind Forest: Definitive Edition is in focus",
            ),
            ProfileCondition::OriWotW => String::from_str(
                "Active when Ori and the Will of the Wisps is in focus",
            ),
        }
    }
}

// -------------------- BaseLayer --------------------

/// What a profile does with each button when no other layer overrides it.
#[derive(Debug, PartialEq, Eq, PartialOrd, Ord, Hash)]
pub struct BaseLayer {
    pub policy: ButtonMap<BaseRemapPolicy>,
}

impl Default for BaseLayer {
    fn default() -> (layer: Self)
        ensures
            forall|b: Button| #[trigger] layer.policy@[b] == BaseRemapPolicyView::NoRemap,
    {
        let mut values: Vec<BaseRemapPolicy> = Vec::new();
        let mut i: usize = 0;
        while i < BUTTON_COUNT
            invariant
                i <= BUTTON_COUNT,
                values@.len() == i,
                forall|j: int| 0 <= j < i ==> #[trigger] values@[j] == BaseRemapPolicy::NoRemap,
            decreases BUTTON_COUNT - i,
        {
            values.push(BaseRemapPolicy::NoRemap);
            i = i + 1;
        }
        let policy = ButtonMap::from_vec(values).unwrap();
        proof {
            assert forall|b: Button| #[trigger] policy@[b] == BaseRemapPolicyView::NoRemap by {
                crate::button_map::lemma_values_at_index(policy, b);
                crate::buttons::lemma_button_index_roundtrip(b);
            }
        }
        BaseLayer { policy }
    }
}

impl Clone for BaseLayer {
    fn clone(&self) -> (copy: Self)
        ensures
            copy.policy@ == self.policy@,
    {
        let policy = self.policy.clone();
        proof {
            assert forall|b: Button| #[trigger] policy.spec_get(b)@ == self.policy.spec_get(b)@ by {
                assert(cloned::<BaseRemapPolicy>(self.policy.spec_get(b), policy.spec_get(b)));
            }
            assert(policy@ =~= self.policy@);
        }
        BaseLayer { policy }
    }
}

// -------------------- Layers --------------------

/// Overrides a profile's remaps while its condition holds.
#[derive(Debug, PartialEq, Eq, PartialOrd, Ord, Hash)]
pub struct Layer {
    pub name: String,
    pub enabled: bool,
    pub layer_type: LayerType,
    pub condition: Vec<HoldButton>,
    pub policy: ButtonMap<RemapPolicy>,
}

impl Default for Layer {
    fn default() -> (layer: Self)
        ensures
            layer.name@ == "New Layer"@,
            layer.enabled,
            layer.layer_type == LayerType::Modifier,
            layer.condition@.len() == 0,
            forall|b: Button| #[trigger] layer.policy@[b] == RemapPolicyView::Defer,
    {
        Layer {
            name: String::from_str("New Layer"),
            enabled: true,
            layer_type: LayerType::default(),
            condition: Vec::new(),
            policy: default_layer_policy(),
        }
    }
}

/// A policy map that defers every button.
pub fn default_layer_policy() -> (policy: ButtonMap<RemapPolicy>)
    ensures
        forall|b: Button| #[trigger] policy@[b] == RemapPolicyView::Defer,
{
    let mut values: Vec<RemapPolicy> = Vec::new();
    let mut i: usize = 0;
    while i < BUTTON_COUNT
        invariant
            i <= BUTTON_COUNT,
            values@.len() == i,
            forall|j: int| 0 <= j < i ==> #[trigger] values@[j] == RemapPolicy::Defer,
        decreases BUTTON_COUNT - i,
    {
        values.push(RemapPolicy::Defer);
        i = i + 1;
    }
    let policy = ButtonMap::from_vec(values).unwrap();
    proof {
        assert forall|b: Button| #[trigger] policy@[b] == RemapPolicyView::Defer by {
            crate::button_map::lemma_values_at_index(policy, b);
            crate::buttons::lemma_button_index_roundtrip(b);
        }
    }
    policy
}

impl Clone for Layer {
    fn clone(&self) -> (copy: Self)
        ensures
            copy@ == self@,
    {
        let policy = self.policy.clone();
        let condition = self.condition.clone();
        proof {
            assert forall|b: Button| #[trigger] policy.spec_get(b)@ == self.policy.spec_get(b)@ by {
                assert(cloned::<RemapPolicy>(self.policy.spec_get(b), policy.spec_get(b)));
            }
            assert(policy@ =~= self.policy@);
            assert(condition@ =~= self.condition@);
        }
        Layer {
            name: self.name.clone(),
            enabled: self.enabled,
            layer_type: self.layer_type,
            condition,
            policy,
        }
    }
}

impl Layer {
    /// A sentence that says when this layer is active.
    pub open spec fn spec_condition_helper_text(&self) -> Seq<char> {
        let buttons = if self.condition@.len() == 0 {
            "(no buttons set)"@
        } else {
            spec_join_names(crate::text::spec_hold_as_buttons(self.condition@))
        };
        match self.layer_type {
            LayerType::Modifier => "Active when these buttons are held: "@ + buttons,
            LayerType::Toggle => "Toggled when these buttons are pressed: "@ + buttons,
        }
    }

    /// A sentence that says when this layer is active.
    pub fn condition_helper_text(&self) -> (text: String)
        ensures
            text@ == self.spec_condition_helper_text(),
    {
        let buttons = if self.condition.len() == 0 {
            String::from_str("(no buttons set)")
        } else {
            crate::text::join_hold_names(&self.condition)
        };
        let mut text = match self.layer_type {
            LayerType::Modifier => String::from_str("Active when these buttons are held: "),
            LayerType::Toggle => String::from_str("Toggled when these buttons are pressed: "),
        };
        text.append(buttons.as_str());
        text
    }

    /// A copy of this layer whose name marks it as a copy.
    pub fn clone_new_name(&self) -> (copy: Self)
        ensures
            copy@ == (LayerView { name: self.name@ + " (copy)"@, ..self@ }),
    {
        let mut copy = self.clone();
        copy.name.append(" (copy)");
        copy
    }
}

// -------------------- LayerType --------------------

/// How a layer's buttons turn it on.
#[derive(Debug, Clone, Copy, PartialEq, Eq, PartialOrd, Ord, Hash, Structural)]
pub enum LayerType {
    /// Active while the buttons are held.
    Modifier,
    /// Turned on and off by pressing the buttons.
    Toggle,
}

impl LayerType {
    /// The name shown to the user for this layer type.
    pub open spec fn spec_name(self) -> Seq<char> {
        match self {
            LayerType::Modifier => "Modifier"@,
            LayerType::Toggle => "Toggle"@,
        }
    }

    /// The name shown to the user for this layer type.
    pub fn name(self) -> (name: &'static str)
        ensures
            name@ == self.spec_name(),
    {
        match self {
            LayerType::Modifier => "Modifier",
            LayerType::Toggle => "Toggle",
        }
    }
}

impl Default for LayerType {
    fn default() -> (layer_type: Self)
        ensures
            layer_type == LayerType::Modifier,
    {
        LayerType::Modifier
    }
}

// -------------------- BaseRemapPolicy --------------------

/// What the base layer does with one button.
#[derive(Debug, PartialEq, Eq, PartialOrd, Ord, Hash)]
pub enum BaseRemapPolicy {
    /// Let the button through unchanged.
    NoRemap,
    /// Send these buttons instead; an empty list blocks the button.
    Remap(Output),
}

impl Default for BaseRemapPolicy {
    fn default() -> (policy: Self)
        ensures
            policy == BaseRemapPolicy::NoRemap,
    {
        BaseRemapPolicy::NoRemap
    }
}

impl Clone for BaseRemapPolicy {
    fn clone(&self) -> (copy: Self)
        ensures
            copy@ == self@,
    {
        match self {
            BaseRemapPolicy::NoRemap => BaseRemapPolicy::NoRemap,
            BaseRemapPolicy::Remap(output) => BaseRemapPolicy::Remap(output.duplicate()),
        }
    }
}

/// How a list of outputs is described: the button names, or a note that the input is blocked.
pub open spec fn spec_outputs_text(outputs: Seq<Button>) -> Seq<char> {
    if outputs.len() == 0 {
        "(block input)"@
    } else {
        spec_join_names(outputs)
    }
}

/// How a list of outputs is described: the button names, or a note that the input is blocked.
pub fn outputs_text(output: &Output) -> (text: String)
    ensures
        text@ == spec_outputs_text(output_items(*output)),
{
    if output.len() == 0 {
        String::from_str("(block input)")
    } else {
        join_names(output)
    }
}

impl BaseRemapPolicy {
    /// How this policy is shown to the user.
    pub open spec fn spec_text(&self) -> Seq<char> {
        match self@ {
            BaseRemapPolicyView::NoRemap => "(do not remap)"@,
            BaseRemapPolicyView::Remap(outputs) => spec_outputs_text(outputs),
        }
    }

    /// How this policy is shown to the user.
    pub fn text(&self) -> (text: String)
        ensures
            text@ == self.spec_text(),
    {
        match self {
            BaseRemapPolicy::NoRemap => String::from_str("(do not remap)"),
            BaseRemapPolicy::Remap(output) => outputs_text(output),
        }
    }
}

// -------------------- RemapPolicy --------------------

/// What a layer does with one button.
#[derive(Debug, PartialEq, Eq, PartialOrd, Ord, Hash)]
pub enum RemapPolicy {
    /// Leave the button to the layers below.
    Defer,
    /// Let the button through unchanged, whatever the layers below do.
    NoRemap,
    /// Send these buttons instead; an empty list blocks the button.
    Remap(Output),
}

impl Default for RemapPolicy {
    fn default() -> (policy: Self)
        ensures
            policy == RemapPolicy::Defer,
    {
        RemapPolicy::Defer
    }
}

impl Clone for RemapPolicy {
    fn clone(&self) -> (copy: Self)
        ensures
            copy@ == self@,
    {
        match self {
            RemapPolicy::Defer => RemapPolicy::Defer,
            RemapPolicy::NoRemap => RemapPolicy::NoRemap,
            RemapPolicy::Remap(output) => RemapPolicy::Remap(output.duplicate()),
        }
    }
}

impl RemapPolicy {
    /// How this policy is shown to the user.
    pub open spec fn spec_text(&self) -> Seq<char> {
        match self@ {
            RemapPolicyView::Defer => "(defer to next layer)"@,
            RemapPolicyView::NoRemap => "(do not remap)"@,
            RemapPolicyView::Remap(outputs) => spec_outputs_text(outputs),
        }
    }

    /// How this policy is shown to the user.
    pub fn text(&self) -> (text: String)
        ensures
            text@ == self.spec_text(),
    {
        match self {
            RemapPolicy::Defer => String::from_str("(defer to next layer)"),
            RemapPolicy::NoRemap => String::from_str("(do not remap)"),
            RemapPolicy::Remap(output) => outputs_text(output),
        }
    }
}

impl Clone for Config {
    fn clone(&self) -> (copy: Self)
        ensures
            copy@ == self@,
    {
        let profiles = self.profiles.clone();
        proof {
            assert forall|i: int| 0 <= i < self.profiles@.len() implies profiles@[i]@
                == self.profiles@[i]@ by {
                assert(cloned::<Profile>(self.profiles@[i], profiles@[i]));
            }
            assert(profiles@.map_values(|p: Profile| p@) =~= self.profiles@.map_values(
                |p: Profile| p@,
            ));
        }
        Config { profiles, show_rare_keys: self.show_rare_keys }
    }
}


/// Wrapping a configuration in its version and unwrapping it gives it back unchanged.
pub proof fn lemma_versioned_config_roundtrip(config: Config)
    ensures
        <Config as vstd::std_specs::convert::FromSpec<VersionedConfig>>::from_spec(
            <VersionedConfig as vstd::std_specs::convert::FromSpec<Config>>::from_spec(config),
        ) == config,
{
}

/// Wrapping a profile in its version and unwrapping it gives it back unchanged.
pub proof fn lemma_versioned_profile_roundtrip(profile: Profile)
    ensures
        <Profile as vstd::std_specs::convert::FromSpec<VersionedProfile>>::from_spec(
            <VersionedProfile as vstd::std_specs::convert::FromSpec<Profile>>::from_spec(profile),
        ) == profile,
{
}

} // verus!
