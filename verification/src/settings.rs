//! The settings view's state: the one persistent setting is the dark-mode
//! flag. Rendering the view is the caller's concern.

use vstd::prelude::*;

verus! {

/// The settings panel's state.
#[derive(Clone, Copy, PartialEq, Eq, Structural, Debug)]
pub struct SettingsPanel {
    pub dark_mode: bool,
}

impl SettingsPanel {
    pub fn new(dark_mode: bool) -> (p: SettingsPanel)
        ensures
            p.dark_mode == dark_mode,
    {
        SettingsPanel { dark_mode }
    }

    /// Flip the dark-mode flag, as the settings checkbox does.
    pub fn toggle_dark_mode(&mut self)
        ensures
            final(self).dark_mode == !old(self).dark_mode,
    {
        self.dark_mode = !self.dark_mode;
    }
}

} // verus!
