//! The configuration being edited next to the one last applied, and what Apply and Discard
//! do to them.

use crate::changes::has_unsaved_changes;
use crate::config::Config;
use crate::gui::reemapp::GuiMenu;
use vstd::prelude::*;

verus! {

/// The configuration the window edits, the configuration the remaps use, and whether the
/// edits are to be thrown away at the end of the frame.
#[derive(Debug)]
pub struct ConfigEdits {
    pub config: Config,
    pub current_config: Config,
    pub schedule_discard: bool,
}

impl ConfigEdits {
    /// The edited configuration differs from the applied one.
    pub open spec fn spec_unsaved(&self) -> bool {
        self.config@ != self.current_config@
    }

    /// Starts editing `config`, which is also the applied configuration.
    pub fn new(config: Config) -> (edits: Self)
        ensures
            edits.config@ == config@,
            edits.current_config@ == config@,
            !edits.schedule_discard,
            !edits.spec_unsaved(),
    {
        let current_config = config.clone();
        ConfigEdits { config, current_config, schedule_discard: false }
    }

    /// Whether there are edits that have not been applied.
    pub fn unsaved_changes(&self) -> (unsaved: bool)
        ensures
            unsaved == self.spec_unsaved(),
    {
        has_unsaved_changes(&self.current_config, &self.config)
    }

    /// Applies the edits: they become the configuration the remaps use. Returns a copy of it,
    /// to be saved and sent to the hook thread.
    pub fn apply(&mut self) -> (applied: Config)
        ensures
            applied@ == old(self).config@,
            final(self).config == old(self).config,
            final(self).current_config@ == old(self).config@,
            final(self).schedule_discard == old(self).schedule_discard,
            !final(self).spec_unsaved(),
    {
        self.current_config = self.config.clone();
        self.config.clone()
    }

    /// Asks for the edits to be thrown away at the end of the frame.
    pub fn discard(&mut self)
        ensures
            final(self).schedule_discard,
            final(self).config == old(self).config,
            final(self).current_config == old(self).current_config,
    {
        self.schedule_discard = true;
    }

    /// Ends a frame: when a discard was asked for, the edited configuration goes back to the
    /// applied one and the window returns to its main page.
    pub fn end_frame(&mut self, menu: &mut GuiMenu)
        ensures
            !final(self).schedule_discard,
            final(self).current_config == old(self).current_config,
            old(self).schedule_discard ==> {
                &&& final(self).config@ == old(self).current_config@
                &&& *final(menu) == GuiMenu::Main
                &&& !final(self).spec_unsaved()
            },
            !old(self).schedule_discard ==> {
                &&& final(self).config == old(self).config
                &&& *final(menu) == *old(menu)
            },
    {
        if self.schedule_discard {
            self.schedule_discard = false;
            self.config = self.current_config.clone();
            *menu = GuiMenu::Main;
        }
    }
}

} // verus!
