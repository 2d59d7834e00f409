//! The state of the configuration window's menus and dialogs, and what their buttons do.

pub mod edits;
pub mod listing;
pub mod tables;

use crate::buttons::{Button, HoldButton};
use crate::config::{
    default_layer_policy, BaseLayer, BaseRemapPolicy, BaseRemapPolicyView, Config, Layer,
    LayerType, LayerView, Profile, ProfileCondition, ProfileConditionView, ProfileView, RemapPolicy,
    RemapPolicyView,
};
use crate::output::{output_items, Output};
use crate::query_windows::WindowInfo;
use crate::text::{join_names, spec_hold_as_buttons, spec_join_names};
use vstd::prelude::*;

verus! {

// -------------------- menus --------------------

/// The page the configuration window shows.
#[derive(Debug, Clone, Copy, PartialEq, Eq, PartialOrd, Ord, Hash, Structural)]
pub enum GuiMenu {
    Main,
    Profile { profile_idx: usize },
    ProfileLayer { profile_idx: usize, layer_idx: usize },
}

impl Default for GuiMenu {
    fn default() -> (menu: Self)
        ensures
            menu == GuiMenu::Main,
    {
        GuiMenu::Main
    }
}

impl GuiMenu {
    /// The page names a profile and layer that exist in `config`.
    pub open spec fn valid_for(self, config: Config) -> bool {
        match self {
            GuiMenu::Main => true,
            GuiMenu::Profile { profile_idx } => profile_idx < config.profiles@.len(),
            GuiMenu::ProfileLayer { profile_idx, layer_idx } => profile_idx
                < config.profiles@.len() && layer_idx < config.profiles@[profile_idx as int].layers@.len(),
        }
    }

    /// Whether the page names a profile and layer that exist in `config`.
    pub fn is_valid_for(self, config: &Config) -> (valid: bool)
        ensures
            valid == self.valid_for(*config),
    {
        match self {
            GuiMenu::Main => true,
            GuiMenu::Profile { profile_idx } => profile_idx < config.profiles.len(),
            GuiMenu::ProfileLayer { profile_idx, layer_idx } => profile_idx
                < config.profiles.len() && layer_idx < config.profiles[profile_idx].layers.len(),
        }
    }

    /// The pages on the path from the main page to this one, each shown as one crumb.
    pub open spec fn spec_breadcrumb(self) -> Seq<GuiMenu> {
        match self {
            GuiMenu::Main => seq![GuiMenu::Main],
            GuiMenu::Profile { profile_idx } => seq![GuiMenu::Main, GuiMenu::Profile { profile_idx }],
            GuiMenu::ProfileLayer { profile_idx, layer_idx } => seq![
                GuiMenu::Main,
                GuiMenu::Profile { profile_idx },
                GuiMenu::ProfileLayer { profile_idx, layer_idx },
            ],
        }
    }

    /// The pages on the path from the main page to this one.
    pub fn breadcrumb(self) -> (trail: Vec<GuiMenu>)
        ensures
            trail@ == self.spec_breadcrumb(),
    {
        let mut trail: Vec<GuiMenu> = Vec::new();
        trail.push(GuiMenu::Main);
        match self {
            GuiMenu::Main => {},
            GuiMenu::Profile { profile_idx } => {
                trail.push(GuiMenu::Profile { profile_idx });
            },
            GuiMenu::ProfileLayer { profile_idx, layer_idx } => {
                trail.push(GuiMenu::Profile { profile_idx });
                trail.push(GuiMenu::ProfileLayer { profile_idx, layer_idx });
            },
        }
        proof {
            assert(trail@ =~= self.spec_breadcrumb());
        }
        trail
    }

    /// The text of one crumb: "Home", the profile's name, or the layer's name.
    pub fn crumb_label(self, config: &Config) -> (label: String)
        requires
            self.valid_for(*config),
        ensures
            label@ == match self {
                GuiMenu::Main => "Home"@,
                GuiMenu::Profile { profile_idx } => config.profiles@[profile_idx as int].name@,
                GuiMenu::ProfileLayer { profile_idx, layer_idx } =>
                    config.profiles@[profile_idx as int].layers@[layer_idx as int].name@,
            },
    {
        match self {
            GuiMenu::Main => String::from_str("Home"),
            GuiMenu::Profile { profile_idx } => config.profiles[profile_idx].name.clone(),
            GuiMenu::ProfileLayer { profile_idx, layer_idx } => config.profiles[profile_idx].layers[layer_idx].name.clone(),
        }
    }
}

/// Every crumb of a valid page is itself a valid page.
pub proof fn lemma_breadcrumb_valid(menu: GuiMenu, config: Config)
    requires
        menu.valid_for(config),
    ensures
        forall|i: int|
            0 <= i < menu.spec_breadcrumb().len() ==> (#[trigger] menu.spec_breadcrumb()[i]).valid_for(
                config,
            ),
        menu.spec_breadcrumb().last() == menu,
{
}

/// The search box and filter of a remap table.
#[derive(Debug, Clone, PartialEq, Eq, PartialOrd, Ord, Hash)]
pub struct RemapsSearchOpts {
    pub search_string: String,
    pub hide_unmapped: bool,
}

impl Default for RemapsSearchOpts {
    fn default() -> (opts: Self)
        ensures
            opts.search_string@.len() == 0,
            !opts.hide_unmapped,
    {
        RemapsSearchOpts { search_string: String::new(), hide_unmapped: false }
    }
}

/// The dialog that reorders and deletes profiles; `new_order` is applied on OK.
#[derive(Debug, Clone, PartialEq, Eq, PartialOrd, Ord, Hash)]
pub struct RearrangeProfilesModalOpts {
    pub modal_open: bool,
    pub new_order: Vec<Profile>,
}

/// The dialog that reorders and deletes layers; `new_order` is applied on OK.
#[derive(Debug, Clone, PartialEq, Eq, PartialOrd, Ord, Hash)]
pub struct RearrangeLayersModalOpts {
    pub modal_open: bool,
    pub new_order: Vec<Layer>,
}

impl Default for RearrangeProfilesModalOpts {
    fn default() -> (opts: Self)
        ensures
            !opts.modal_open,
            opts.new_order@.len() == 0,
    {
        RearrangeProfilesModalOpts { modal_open: false, new_order: Vec::new() }
    }
}

impl Default for RearrangeLayersModalOpts {
    fn default() -> (opts: Self)
        ensures
            !opts.modal_open,
            opts.new_order@.len() == 0,
    {
        RearrangeLayersModalOpts { modal_open: false, new_order: Vec::new() }
    }
}

/// What the buttons of an OK/Cancel dialog mean this frame: `Some(true)` to accept, which
/// only an enabled OK can do; `Some(false)` to cancel; `None` to keep the dialog open.
pub fn ok_cancel_outcome(ok: bool, cancel: bool, enable_ok: bool) -> (outcome: Option<bool>)
    ensures
        outcome == if ok && enable_ok {
            Some(true)
        } else if cancel {
            Some(false)
        } else {
            None::<bool>
        },
{
    if ok && enable_ok {
        Some(true)
    } else if cancel {
        Some(false)
    } else {
        None
    }
}

// -------------------- profile dialog --------------------

/// The kinds of condition the profile dialog offers.
#[derive(Debug, Clone, Copy, PartialEq, Eq, PartialOrd, Ord, Hash, Structural)]
pub enum ProfileConditionUI {
    // custom
    Always,
    TitleAndProcess,
    Title,
    Process,
    // presets
    OriBF,
    OriBFDE,
    OriWotW,
}

impl Default for ProfileConditionUI {
    fn default() -> (kind: Self)
        ensures
            kind == ProfileConditionUI::TitleAndProcess,
    {
        ProfileConditionUI::TitleAndProcess
    }
}

impl ProfileConditionUI {
    /// The name shown to the user for this kind of condition.
    pub open spec fn spec_name(self) -> Seq<char> {
        match self {
            ProfileConditionUI::Always => "Always active"@,
            ProfileConditionUI::TitleAndProcess => "Window title and process"@,
            ProfileConditionUI::Title => "Window title"@,
            ProfileConditionUI::Process => "Process"@,
            ProfileConditionUI::OriBF => "Ori and the Blind Forest"@,
            ProfileConditionUI::OriBFDE => "Ori and the Blind Forest: Definitive Edition"@,
            ProfileConditionUI::OriWotW => "Ori and the Will of the Wisps"@,
        }
    }

    /// The name shown to the user for this kind of condition.
    pub fn name(self) -> (name: &'static str)
        ensures
            name@ == self.spec_name(),
    {
        match self {
            ProfileConditionUI::Always => "Always active",
            ProfileConditionUI::TitleAndProcess => "Window title and process",
            ProfileConditionUI::Title => "Window title",
            ProfileConditionUI::Process => "Process",
            ProfileConditionUI::OriBF => "Ori and the Blind Forest",
            ProfileConditionUI::OriBFDE => "Ori and the Blind Forest: Definitive Edition",
            ProfileConditionUI::OriWotW => "Ori and the Will of the Wisps",
        }
    }

    /// Whether the window title field is used by this kind of condition.
    pub fn uses_title(self) -> (uses: bool)
        ensures
            uses == (self == ProfileConditionUI::TitleAndProcess || self == ProfileConditionUI::Title),
    {
        match self {
            ProfileConditionUI::TitleAndProcess | ProfileConditionUI::Title => true,
            _ => false,
        }
    }

    /// Whether the process field is used by this kind of condition.
    pub fn uses_process(self) -> (uses: bool)
        ensures
            uses == (self == ProfileConditionUI::TitleAndProcess || self
                == ProfileConditionUI::Process),
    {
        match self {
            ProfileConditionUI::TitleAndProcess | ProfileConditionUI::Process => true,
            _ => false,
        }
    }

    /// Whether the list of open windows can be used to fill in the fields.
    pub fn uses_window_list(self) -> (uses: bool)
        ensures
            uses == (self == ProfileConditionUI::TitleAndProcess || self == ProfileConditionUI::Title
                || self == ProfileConditionUI::Process),
    {
        match self {
            ProfileConditionUI::TitleAndProcess
            | ProfileConditionUI::Title
            | ProfileConditionUI::Process => true,
            ProfileConditionUI::Always
            | ProfileConditionUI::OriBF
            | ProfileConditionUI::OriBFDE
            | ProfileConditionUI::OriWotW => false,
        }
    }
}

/// The condition the profile dialog produces from the chosen kind and the two text fields.
/// The presets stand for the title and process of each game.
pub open spec fn spec_extracted_condition(
    kind: ProfileConditionUI,
    title: Seq<char>,
    process: Seq<char>,
) -> ProfileConditionView {
    match kind {
        ProfileConditionUI::Always => ProfileConditionView::Always,
        ProfileConditionUI::TitleAndProcess => ProfileConditionView::TitleAndProcess {
            title,
            process,
        },
        ProfileConditionUI::Title => ProfileConditionView::Title { title },
        ProfileConditionUI::Process => ProfileConditionView::Process { process },
        ProfileConditionUI::OriBF => ProfileConditionView::TitleAndProcess {
            title: "Ori And The Blind Forest"@,
            process: "ori.exe"@,
        },
        ProfileConditionUI::OriBFDE => ProfileConditionView::TitleAndProcess {
            title: "Ori And The Blind Forest: Definitive Edition"@,
            process: "oriDE.exe"@,
        },
        ProfileConditionUI::OriWotW => ProfileConditionView::TitleAndProcess {
            title: "OriAndTheWilloftheWisps"@,
            process: "oriwotw.exe"@,
        },
    }
}

/// The kind of condition the profile dialog shows for an existing condition.
pub open spec fn spec_condition_kind(condition: ProfileConditionView) -> ProfileConditionUI {
    match condition {
        ProfileConditionView::Always => ProfileConditionUI::Always,
        ProfileConditionView::TitleAndProcess { .. } => ProfileConditionUI::TitleAndProcess,
        ProfileConditionView::Title { .. } => ProfileConditionUI::Title,
        ProfileConditionView::Process { .. } => ProfileConditionUI::Process,
        ProfileConditionView::OriBF => ProfileConditionUI::OriBF,
        ProfileConditionView::OriBFDE => ProfileConditionUI::OriBFDE,
        ProfileConditionView::OriWotW => ProfileConditionUI::OriWotW,
    }
}

/// The window title the profile dialog shows for an existing condition.
pub open spec fn spec_condition_title(condition: ProfileConditionView) -> Seq<char> {
    match condition {
        ProfileConditionView::TitleAndProcess { title, .. } => title,
        ProfileConditionView::Title { title } => title,
        _ => Seq::empty(),
    }
}

/// The process the profile dialog shows for an existing condition.
pub open spec fn spec_condition_process(condition: ProfileConditionView) -> Seq<char> {
    match condition {
        ProfileConditionView::TitleAndProcess { process, .. } => process,
        ProfileConditionView::Process { process } => process,
        _ => Seq::empty(),
    }
}

/// The profile dialog: a name and a condition being edited, and the open windows to pick
/// a title and process from.
#[derive(Debug, Clone, PartialEq)]
pub struct EditProfileModalOpts {
    pub modal_open: bool,
    pub name: String,
    pub condition: ProfileConditionUI,
    pub title: String,
    pub process: String,
    pub open_windows: Vec<WindowInfo>,
}

impl Default for EditProfileModalOpts {
    fn default() -> (opts: Self)
        ensures
            !opts.modal_open,
            opts.name@.len() == 0,
            opts.condition == ProfileConditionUI::TitleAndProcess,
            opts.title@.len() == 0,
            opts.process@.len() == 0,
            opts.open_windows@.len() == 0,
    {
        EditProfileModalOpts {
            modal_open: false,
            name: String::new(),
            condition: ProfileConditionUI::default(),
            title: String::new(),
            process: String::new(),
            open_windows: Vec::new(),
        }
    }
}

impl EditProfileModalOpts {
    /// The dialog opened to create a profile: empty fields and the list of open windows.
    pub fn for_new_profile(open_windows: Vec<WindowInfo>) -> (opts: Self)
        ensures
            opts.modal_open,
            opts.name@.len() == 0,
            opts.condition == ProfileConditionUI::TitleAndProcess,
            opts.title@.len() == 0,
            opts.process@.len() == 0,
            opts.open_windows == open_windows,
    {
        EditProfileModalOpts {
            modal_open: true,
            name: String::new(),
            condition: ProfileConditionUI::default(),
            title: String::new(),
            process: String::new(),
            open_windows,
        }
    }

    /// The dialog opened to edit `profile`: its name and condition filled in.
    pub fn from_profile(profile: &Profile, open_windows: Vec<WindowInfo>) -> (opts: Self)
        ensures
            opts.modal_open,
            opts.name@ == profile.name@,
            opts.condition == spec_condition_kind(profile.condition@),
            opts.title@ == spec_condition_title(profile.condition@),
            opts.process@ == spec_condition_process(profile.condition@),
            opts.open_windows == open_windows,
    {
        let (condition, title, process): (ProfileConditionUI, String, String) = match &profile.condition {
            ProfileCondition::Always => (ProfileConditionUI::Always, String::new(), String::new()),
            ProfileCondition::TitleAndProcess { title, process } => (
                ProfileConditionUI::TitleAndProcess,
                title.clone(),
                process.clone(),
            ),
            ProfileCondition::Title { title } => (
                ProfileConditionUI::Title,
                title.clone(),
                String::new(),
            ),
            ProfileCondition::Process { process } => (
                ProfileConditionUI::Process,
                String::new(),
                process.clone(),
            ),
            ProfileCondition::OriBF => (ProfileConditionUI::OriBF, String::new(), String::new()),
            ProfileCondition::OriBFDE => (ProfileConditionUI::OriBFDE, String::new(), String::new()),
            ProfileCondition::OriWotW => (ProfileConditionUI::OriWotW, String::new(), String::new()),
        };
        EditProfileModalOpts {
            modal_open: true,
            name: profile.name.clone(),
            condition,
            title,
            process,
            open_windows,
        }
    }

    /// The condition the dialog describes.
    pub fn extract_condition(self) -> (condition: ProfileCondition)
        ensures
            condition@ == spec_extracted_condition(self.condition, self.title@, self.process@),
    {
        match self.condition {
            ProfileConditionUI::Always => ProfileCondition::Always,
            ProfileConditionUI::TitleAndProcess => ProfileCondition::TitleAndProcess {
                title: self.title,
                process: self.process,
            },
            ProfileConditionUI::Title => ProfileCondition::Title { title: self.title },
            ProfileConditionUI::Process => ProfileCondition::Process { process: self.process },
            ProfileConditionUI::OriBF => ProfileCondition::TitleAndProcess {
                title: String::from_str("Ori And The Blind Forest"),
                process: String::from_str("ori.exe"),
            },
            ProfileConditionUI::OriBFDE => ProfileCondition::TitleAndProcess {
                title: String::from_str("Ori And The Blind Forest: Definitive Edition"),
                process: String::from_str("oriDE.exe"),
            },
            ProfileConditionUI::OriWotW => ProfileCondition::TitleAndProcess {
                title: String::from_str("OriAndTheWilloftheWisps"),
                process: String::from_str("oriwotw.exe"),
            },
        }
    }

    /// Whether the dialog may be accepted: the profile has a name and every text field
    /// that the chosen condition uses is filled in.
    pub open spec fn spec_valid(&self) -> bool {
        &&& self.name@.len() > 0
        &&& match self.condition {
            ProfileConditionUI::TitleAndProcess => self.title@.len() > 0 && self.process@.len() > 0,
            ProfileConditionUI::Title => self.title@.len() > 0,
            ProfileConditionUI::Process => self.process@.len() > 0,
            _ => true,
        }
    }

    /// Whether the dialog may be accepted.
    pub fn valid(&self) -> (valid: bool)
        ensures
            valid == self.spec_valid(),
    {
        !self.name.as_str().is_empty() && match self.condition {
            ProfileConditionUI::TitleAndProcess => !self.title.as_str().is_empty()
                && !self.process.as_str().is_empty(),
            ProfileConditionUI::Title => !self.title.as_str().is_empty(),
            ProfileConditionUI::Process => !self.process.as_str().is_empty(),
            ProfileConditionUI::Always
            | ProfileConditionUI::OriBF
            | ProfileConditionUI::OriBFDE
            | ProfileConditionUI::OriWotW => true,
        }
    }

    /// The line shown beside OK: what the condition means when the dialog may be accepted,
    /// otherwise what is missing.
    pub fn helper_text(&self) -> (text: String)
        ensures
            text@ == if self.spec_valid() {
                crate::config::spec_condition_text(
                    spec_extracted_condition(self.condition, self.title@, self.process@),
                )
            } else if self.name@.len() == 0 {
                "Choose a profile name"@
            } else {
                "Choose a window title or process"@
            },
    {
        if self.valid() {
            let condition = EditProfileModalOpts {
                modal_open: self.modal_open,
                name: self.name.clone(),
                condition: self.condition,
                title: self.title.clone(),
                process: self.process.clone(),
                open_windows: Vec::new(),
            }.extract_condition();
            condition.helper_text()
        } else if self.name.as_str().is_empty() {
            String::from_str("Choose a profile name")
        } else {
            String::from_str("Choose a window title or process")
        }
    }

    /// Fills the title and process from a window picked in the list.
    pub fn pick_window(&mut self, window: &WindowInfo)
        ensures
            final(self).title@ == window.title@,
            final(self).process@ == window.process@,
            final(self).name == old(self).name,
            final(self).condition == old(self).condition,
            final(self).modal_open == old(self).modal_open,
            final(self).open_windows == old(self).open_windows,
    {
        self.title = window.title.clone();
        self.process = window.process.clone();
    }

    /// The profile the dialog creates: its name and condition, everything else as a new
    /// profile has it.
    pub fn into_profile(self) -> (profile: Profile)
        ensures
            profile.name@ == self.name@,
            profile.condition@ == spec_extracted_condition(self.condition, self.title@, self.process@),
            profile.enabled,
            forall|b: Button| #[trigger] profile.base.policy@[b] == BaseRemapPolicyView::NoRemap,
            profile.layers@.len() == 0,
            !profile.clip_cursor,
    {
        let name = self.name.clone();
        let condition = self.extract_condition();
        Profile {
            name,
            enabled: true,
            condition,
            base: BaseLayer::default(),
            layers: Vec::new(),
            clip_cursor: false,
        }
    }
}

impl EditProfileModalOpts {
    /// Writes the dialog's name and condition into an existing profile, which keeps its
    /// remaps, layers and other settings.
    pub fn apply_to(&self, profile: &mut Profile)
        ensures
            final(profile)@ == (ProfileView {
                name: self.name@,
                condition: spec_extracted_condition(self.condition, self.title@, self.process@),
                ..old(profile)@
            }),
    {
        let dialog = EditProfileModalOpts {
            modal_open: self.modal_open,
            name: self.name.clone(),
            condition: self.condition,
            title: self.title.clone(),
            process: self.process.clone(),
            open_windows: Vec::new(),
        };
        profile.name = self.name.clone();
        profile.condition = dialog.extract_condition();
    }
}

/// The profile dialog can only be accepted with a profile name and with every text field
/// its condition uses filled in, so an accepted dialog never produces a condition with an
/// empty window title or process; and once those fields are filled in it can be accepted.
pub proof fn lemma_accepted_profile_condition_has_texts(opts: EditProfileModalOpts)
    ensures
        opts.spec_valid() ==> opts.name@.len() > 0,
        opts.spec_valid() ==> match spec_extracted_condition(
            opts.condition,
            opts.title@,
            opts.process@,
        ) {
            ProfileConditionView::TitleAndProcess { title, process } => title.len() > 0
                && process.len() > 0,
            ProfileConditionView::Title { title } => title.len() > 0,
            ProfileConditionView::Process { process } => process.len() > 0,
            _ => true,
        },
        ({
            &&& opts.name@.len() > 0
            &&& (opts.condition == ProfileConditionUI::TitleAndProcess || opts.condition
                == ProfileConditionUI::Title) ==> opts.title@.len() > 0
            &&& (opts.condition == ProfileConditionUI::TitleAndProcess || opts.condition
                == ProfileConditionUI::Process) ==> opts.process@.len() > 0
        }) ==> opts.spec_valid(),
{
    reveal_strlit("Ori And The Blind Forest");
    reveal_strlit("ori.exe");
    reveal_strlit("Ori And The Blind Forest: Definitive Edition");
    reveal_strlit("oriDE.exe");
    reveal_strlit("OriAndTheWilloftheWisps");
    reveal_strlit("oriwotw.exe");
}

/// Opening the profile dialog on a profile and accepting it unchanged gives back the same
/// condition, for every condition but the presets (which the dialog turns into their title
/// and process).
pub proof fn lemma_profile_dialog_roundtrip(condition: ProfileConditionView)
    requires
        !(condition is OriBF || condition is OriBFDE || condition is OriWotW),
    ensures
        spec_extracted_condition(
            spec_condition_kind(condition),
            spec_condition_title(condition),
            spec_condition_process(condition),
        ) == condition,
{
}

// -------------------- layer dialog --------------------

/// The layer dialog: a name, a layer type and the buttons of the layer's condition.
#[derive(Debug, Clone, PartialEq, Eq, PartialOrd, Ord, Hash)]
pub struct EditLayerModalOpts {
    pub modal_open: bool,
    pub name: String,
    pub layer_type: LayerType,
    pub condition: Vec<HoldButton>,
    pub search: String,
}

impl Default for EditLayerModalOpts {
    fn default() -> (opts: Self)
        ensures
            !opts.modal_open,
            opts.name@.len() == 0,
            opts.layer_type == LayerType::Modifier,
            opts.condition@.len() == 0,
            opts.search@.len() == 0,
    {
        EditLayerModalOpts {
            modal_open: false,
            name: String::new(),
            layer_type: LayerType::Modifier,
            condition: Vec::new(),
            search: String::new(),
        }
    }
}

impl EditLayerModalOpts {
    /// The dialog opened to create a layer.
    pub fn for_new_layer() -> (opts: Self)
        ensures
            opts.modal_open,
            opts.name@ == "New layer"@,
            opts.layer_type == LayerType::Modifier,
            opts.condition@.len() == 0,
            opts.search@.len() == 0,
    {
        EditLayerModalOpts {
            modal_open: true,
            name: String::from_str("New layer"),
            layer_type: LayerType::Modifier,
            condition: Vec::new(),
            search: String::new(),
        }
    }

    /// The dialog opened to edit `layer`.
    pub fn from_layer(layer: &Layer) -> (opts: Self)
        ensures
            opts.modal_open,
            opts.name@ == layer.name@,
            opts.layer_type == layer.layer_type,
            opts.condition@ == layer.condition@,
            opts.search@.len() == 0,
    {
        let condition = layer.condition.clone();
        proof {
            assert(condition@ =~= layer.condition@);
        }
        EditLayerModalOpts {
            modal_open: true,
            name: layer.name.clone(),
            layer_type: layer.layer_type,
            condition,
            search: String::new(),
        }
    }

    /// Whether the dialog may be accepted: the layer has at least one condition button.
    pub fn valid(&self) -> (valid: bool)
        ensures
            valid == (self.condition@.len() > 0),
    {
        self.condition.len() > 0
    }

    /// The layer the dialog creates: its name, type and condition; enabled, deferring every
    /// button.
    pub fn to_layer(&self) -> (layer: Layer)
        ensures
            layer.name@ == self.name@,
            layer.layer_type == self.layer_type,
            layer.condition@ == self.condition@,
            layer.enabled,
            forall|b: Button| #[trigger] layer.policy@[b] == RemapPolicyView::Defer,
    {
        let condition = self.condition.clone();
        proof {
            assert(condition@ =~= self.condition@);
        }
        Layer {
            name: self.name.clone(),
            enabled: true,
            layer_type: self.layer_type,
            condition,
            policy: default_layer_policy(),
        }
    }

    /// The line shown beside OK: when the new layer will be active, or what is missing.
    pub fn helper_text(&self) -> (text: String)
        ensures
            text@ == if self.condition@.len() > 0 {
                match self.layer_type {
                    LayerType::Modifier => "Active when these buttons are held: "@
                        + spec_join_names(spec_hold_as_buttons(self.condition@)),
                    LayerType::Toggle => "Toggled when these buttons are pressed: "@
                        + spec_join_names(spec_hold_as_buttons(self.condition@)),
                }
            } else {
                "Choose one or more inputs"@
            },
    {
        if self.valid() {
            self.to_layer().condition_helper_text()
        } else {
            String::from_str("Choose one or more inputs")
        }
    }

    /// Writes the dialog's name, type and condition into `layer`, which keeps its remaps
    /// and its enabled flag.
    pub fn apply_to(&self, layer: &mut Layer)
        ensures
            final(layer)@ == (LayerView {
                name: self.name@,
                layer_type: self.layer_type,
                condition: self.condition@,
                ..old(layer)@
            }),
    {
        layer.name = self.name.clone();
        layer.layer_type = self.layer_type;
        let condition = self.condition.clone();
        proof {
            assert(condition@ =~= self.condition@);
        }
        layer.condition = condition;
    }
}

// -------------------- remap dialogs --------------------

/// The choices the base layer's remap dialog offers.
#[derive(Debug, Clone, Copy, PartialEq, Eq, PartialOrd, Ord, Hash, Structural)]
pub enum BaseRemapPolicyUI {
    NoRemap,
    Remap,
}

impl Default for BaseRemapPolicyUI {
    fn default() -> (policy: Self)
        ensures
            policy == BaseRemapPolicyUI::NoRemap,
    {
        BaseRemapPolicyUI::NoRemap
    }
}

impl BaseRemapPolicyUI {
    /// The name shown to the user for this choice.
    pub fn name(self) -> (name: &'static str)
        ensures
            name@ == match self {
                BaseRemapPolicyUI::NoRemap => "No Remap"@,
                BaseRemapPolicyUI::Remap => "Remap"@,
            },
    {
        match self {
            BaseRemapPolicyUI::NoRemap => "No Remap",
            BaseRemapPolicyUI::Remap => "Remap",
        }
    }
}

/// The choices a layer's remap dialog offers.
#[derive(Debug, Clone, Copy, PartialEq, Eq, PartialOrd, Ord, Hash, Structural)]
pub enum RemapPolicyUI {
    Defer,
    NoRemap,
    Remap,
}

impl Default for RemapPolicyUI {
    fn default() -> (policy: Self)
        ensures
            policy == RemapPolicyUI::Defer,
    {
        RemapPolicyUI::Defer
    }
}

impl RemapPolicyUI {
    /// The name shown to the user for this choice.
    pub fn name(self) -> (name: &'static str)
        ensures
            name@ == match self {
                RemapPolicyUI::Defer => "Defer"@,
                RemapPolicyUI::NoRemap => "No Remap"@,
                RemapPolicyUI::Remap => "Remap"@,
            },
    {
        match self {
            RemapPolicyUI::Defer => "Defer",
            RemapPolicyUI::NoRemap => "No Remap",
            RemapPolicyUI::Remap => "Remap",
        }
    }
}

/// The outputs as the dialogs list them: the button names, or a note that there are none.
pub open spec fn spec_dialog_outputs_text(outputs: Seq<Button>) -> Seq<char> {
    if outputs.len() == 0 {
        "(no inputs)"@
    } else {
        spec_join_names(outputs)
    }
}

/// The remap dialog of a layer, open on one button.
#[derive(Debug, Clone, PartialEq, Eq, PartialOrd, Ord, Hash)]
pub struct NewRemapModalOpts {
    pub modal_open: Option<Button>,
    pub policy: RemapPolicyUI,
    pub outputs: Output,
    pub search: String,
}

impl Default for NewRemapModalOpts {
    fn default() -> (opts: Self)
        ensures
            opts.modal_open is None,
            opts.policy == RemapPolicyUI::Defer,
            output_items(opts.outputs).len() == 0,
            opts.search@.len() == 0,
    {
        NewRemapModalOpts {
            modal_open: None,
            policy: RemapPolicyUI::Defer,
            outputs: Output::new(),
            search: String::new(),
        }
    }
}

impl NewRemapModalOpts {
    /// The dialog opened on `button`, showing what `policy` does now.
    pub fn open_for(button: Button, policy: &RemapPolicy) -> (opts: Self)
        ensures
            opts.modal_open == Some(button),
            opts.search@.len() == 0,
            match policy@ {
                RemapPolicyView::Defer => opts.policy == RemapPolicyUI::Defer && output_items(
                    opts.outputs,
                ).len() == 0,
                RemapPolicyView::NoRemap => opts.policy == RemapPolicyUI::NoRemap && output_items(
                    opts.outputs,
                ).len() == 0,
                RemapPolicyView::Remap(outputs) => opts.policy == RemapPolicyUI::Remap
                    && output_items(opts.outputs) == outputs,
            },
    {
        let (kind, outputs): (RemapPolicyUI, Output) = match policy {
            RemapPolicy::Defer => (RemapPolicyUI::Defer, Output::new()),
            RemapPolicy::NoRemap => (RemapPolicyUI::NoRemap, Output::new()),
            RemapPolicy::Remap(outputs) => (RemapPolicyUI::Remap, outputs.duplicate()),
        };
        NewRemapModalOpts { modal_open: Some(button), policy: kind, outputs, search: String::new() }
    }

    /// The policy the dialog sets when accepted.
    pub open spec fn spec_chosen_policy(&self) -> RemapPolicyView {
        match self.policy {
            RemapPolicyUI::Defer => RemapPolicyView::Defer,
            RemapPolicyUI::NoRemap => RemapPolicyView::NoRemap,
            RemapPolicyUI::Remap => RemapPolicyView::Remap(output_items(self.outputs)),
        }
    }

    /// The policy the dialog sets when accepted.
    pub fn chosen_policy(&self) -> (policy: RemapPolicy)
        ensures
            policy@ == self.spec_chosen_policy(),
    {
        match self.policy {
            RemapPolicyUI::Defer => RemapPolicy::Defer,
            RemapPolicyUI::NoRemap => RemapPolicy::NoRemap,
            RemapPolicyUI::Remap => RemapPolicy::Remap(self.outputs.duplicate()),
        }
    }

    /// The line shown beside OK: what the chosen policy will do to `button`.
    pub fn helper_text(&self, button: Button) -> (text: String)
        ensures
            text@ == match self.policy {
                RemapPolicyUI::Defer => "This layer will not affect "@ + button.spec_name()
                    + " inputs."@,
                RemapPolicyUI::NoRemap => "When active, this layer will prevent "@
                    + button.spec_name() + " from being remapped."@,
                RemapPolicyUI::Remap => "When active, this layer will remap "@ + button.spec_name()
                    + " to the following: "@ + spec_dialog_outputs_text(output_items(self.outputs))
                    + "."@,
            },
    {
        match self.policy {
            RemapPolicyUI::Defer => {
                let mut text = String::from_str("This layer will not affect ");
                text.append(button.name());
                text.append(" inputs.");
                text
            },
            RemapPolicyUI::NoRemap => {
                let mut text = String::from_str("When active, this layer will prevent ");
                text.append(button.name());
                text.append(" from being remapped.");
                text
            },
            RemapPolicyUI::Remap => {
                let buttons = if self.outputs.len() == 0 {
                    String::from_str("(no inputs)")
                } else {
                    join_names(&self.outputs)
                };
                let mut text = String::from_str("When active, this layer will remap ");
                text.append(button.name());
                text.append(" to the following: ");
                text.append(buttons.as_str());
                text.append(".");
                text
            },
        }
    }
}

/// Opening a layer's remap dialog and accepting it unchanged keeps the policy.
pub proof fn lemma_remap_dialog_roundtrip(button: Button, policy: RemapPolicy, opts: NewRemapModalOpts)
    requires
        opts.modal_open == Some(button),
        match policy@ {
            RemapPolicyView::Defer => opts.policy == RemapPolicyUI::Defer,
            RemapPolicyView::NoRemap => opts.policy == RemapPolicyUI::NoRemap,
            RemapPolicyView::Remap(outputs) => opts.policy == RemapPolicyUI::Remap && output_items(
                opts.outputs,
            ) == outputs,
        },
    ensures
        opts.spec_chosen_policy() == policy@,
{
}

/// The remap dialog of the base layer, open on one button.
#[derive(Debug, Clone, PartialEq, Eq, PartialOrd, Ord, Hash)]
pub struct NewBaseRemapModalOpts {
    pub modal_open: Option<Button>,
    pub policy: BaseRemapPolicyUI,
    pub outputs: Output,
    pub search: String,
}

impl Default for NewBaseRemapModalOpts {
    fn default() -> (opts: Self)
        ensures
            opts.modal_open is None,
            opts.policy == BaseRemapPolicyUI::NoRemap,
            output_items(opts.outputs).len() == 0,
            opts.search@.len() == 0,
    {
        NewBaseRemapModalOpts {
            modal_open: None,
            policy: BaseRemapPolicyUI::NoRemap,
            outputs: Output::new(),
            search: String::new(),
        }
    }
}

impl NewBaseRemapModalOpts {
    /// The dialog opened on `button`, showing what `policy` does now.
    pub fn open_for(button: Button, policy: &BaseRemapPolicy) -> (opts: Self)
        ensures
            opts.modal_open == Some(button),
            opts.search@.len() == 0,
            match policy@ {
                BaseRemapPolicyView::NoRemap => opts.policy == BaseRemapPolicyUI::NoRemap
                    && output_items(opts.outputs).len() == 0,
                BaseRemapPolicyView::Remap(outputs) => opts.policy == BaseRemapPolicyUI::Remap
                    && output_items(opts.outputs) == outputs,
            },
    {
        let (kind, outputs): (BaseRemapPolicyUI, Output) = match policy {
            BaseRemapPolicy::NoRemap => (BaseRemapPolicyUI::NoRemap, Output::new()),
            BaseRemapPolicy::Remap(outputs) => (BaseRemapPolicyUI::Remap, outputs.duplicate()),
        };
        NewBaseRemapModalOpts {
            modal_open: Some(button),
            policy: kind,
            outputs,
            search: String::new(),
        }
    }

    /// The policy the dialog sets when accepted.
    pub open spec fn spec_chosen_policy(&self) -> BaseRemapPolicyView {
        match self.policy {
            BaseRemapPolicyUI::NoRemap => BaseRemapPolicyView::NoRemap,
            BaseRemapPolicyUI::Remap => BaseRemapPolicyView::Remap(output_items(self.outputs)),
        }
    }

    /// The policy the dialog sets when accepted.
    pub fn chosen_policy(&self) -> (policy: BaseRemapPolicy)
        ensures
            policy@ == self.spec_chosen_policy(),
    {
        match self.policy {
            BaseRemapPolicyUI::NoRemap => BaseRemapPolicy::NoRemap,
            BaseRemapPolicyUI::Remap => BaseRemapPolicy::Remap(self.outputs.duplicate()),
        }
    }

    /// Whether the dialog may be accepted: a remap needs at least one output.
    pub fn valid(&self) -> (valid: bool)
        ensures
            valid == (self.policy == BaseRemapPolicyUI::Remap ==> output_items(self.outputs).len()
                > 0),
    {
        match self.policy {
            BaseRemapPolicyUI::Remap => self.outputs.len() > 0,
            BaseRemapPolicyUI::NoRemap => true,
        }
    }

    /// The line shown beside OK: what the chosen policy will do to `button`.
    pub fn helper_text(&self, button: Button) -> (text: String)
        ensures
            text@ == match self.policy {
                BaseRemapPolicyUI::NoRemap => button.spec_name() + " will not be remapped."@,
                BaseRemapPolicyUI::Remap => if output_items(self.outputs).len() == 0 {
                    "Choose one or more buttons"@
                } else {
                    button.spec_name() + " will be remapped to the following: "@
                        + spec_join_names(output_items(self.outputs)) + "."@
                },
            },
    {
        match self.policy {
            BaseRemapPolicyUI::NoRemap => {
                let mut text = String::from_str(button.name());
                text.append(" will not be remapped.");
                text
            },
            BaseRemapPolicyUI::Remap => {
                if self.outputs.len() == 0 {
                    String::from_str("Choose one or more buttons")
                } else {
                    let buttons = join_names(&self.outputs);
                    let mut text = String::from_str(button.name());
                    text.append(" will be remapped to the following: ");
                    text.append(buttons.as_str());
                    text.append(".");
                    text
                }
            },
        }
    }
}

/// Opening the base layer's remap dialog and accepting it unchanged keeps the policy.
pub proof fn lemma_base_remap_dialog_roundtrip(policy: BaseRemapPolicy, opts: NewBaseRemapModalOpts)
    requires
        match policy@ {
            BaseRemapPolicyView::NoRemap => opts.policy == BaseRemapPolicyUI::NoRemap,
            BaseRemapPolicyView::Remap(outputs) => opts.policy == BaseRemapPolicyUI::Remap
                && output_items(opts.outputs) == outputs,
        },
    ensures
        opts.spec_chosen_policy() == policy@,
{
}

// -------------------- settings dialog --------------------

/// The settings dialog. `run_on_login` is `None` when the registry could not be read.
#[derive(Debug, Clone, Copy, PartialEq, Eq, PartialOrd, Ord, Hash, Structural)]
pub struct SettingsModalOpts {
    pub modal_open: bool,
    pub run_on_login: Option<bool>,
    pub current_run_on_login: Option<bool>,
    pub show_rare_keys: bool,
}

impl Default for SettingsModalOpts {
    fn default() -> (opts: Self)
        ensures
            opts == (SettingsModalOpts {
                modal_open: false,
                run_on_login: None,
                current_run_on_login: None,
                show_rare_keys: false,
            }),
    {
        SettingsModalOpts {
            modal_open: false,
            run_on_login: None,
            current_run_on_login: None,
            show_rare_keys: false,
        }
    }
}

impl SettingsModalOpts {
    /// The dialog as it opens: the run-on-login setting read from the registry (`None` when
    /// it could not be read) and the configuration's settings.
    pub fn open(run_on_login: Option<bool>, config: &Config) -> (opts: Self)
        ensures
            opts == (SettingsModalOpts {
                modal_open: true,
                run_on_login,
                current_run_on_login: run_on_login,
                show_rare_keys: config.show_rare_keys,
            }),
    {
        SettingsModalOpts {
            modal_open: true,
            run_on_login,
            current_run_on_login: run_on_login,
            show_rare_keys: config.show_rare_keys,
        }
    }

    /// What to write to the registry when the dialog is accepted: the new run-on-login
    /// choice, when there is one and it differs from what the registry held.
    pub fn registry_change(&self) -> (change: Option<bool>)
        ensures
            change == if self.run_on_login is Some && self.run_on_login != self.current_run_on_login {
                self.run_on_login
            } else {
                None::<bool>
            },
    {
        match (self.run_on_login, self.current_run_on_login) {
            (Some(run), Some(current)) => if run != current {
                Some(run)
            } else {
                None
            },
            (Some(run), None) => Some(run),
            (None, _) => None,
        }
    }

    /// Writes the dialog's settings into the configuration.
    pub fn apply_to(&self, config: &mut Config)
        ensures
            final(config)@ == (crate::config::ConfigView {
                show_rare_keys: self.show_rare_keys,
                ..old(config)@
            }),
    {
        config.show_rare_keys = self.show_rare_keys;
    }
}

} // verus!
