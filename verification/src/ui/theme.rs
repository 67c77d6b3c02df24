//! Session-scoped theme state, held explicitly by the caller rather than in
//! process-wide storage.

use crate::irmin::types::Theme;
use vstd::prelude::*;

verus! {

/// Holder of the current theme for one session.
pub struct ThemeManager {
    current_theme: Theme,
}

impl ThemeManager {
    /// A fresh manager starts in the light theme.
    pub fn new() -> (r: Self)
        ensures
            r.current_theme() == Theme::Light,
    {
        Self { current_theme: Theme::Light }
    }

    /// The theme currently held.
    pub closed spec fn current_theme(self) -> Theme {
        self.current_theme
    }

    pub fn set_theme(&mut self, theme: Theme)
        ensures
            final(self).current_theme() == theme,
    {
        self.current_theme = theme;
    }

    pub fn get_theme(&self) -> (r: &Theme)
        ensures
            *r == self.current_theme(),
    {
        &self.current_theme
    }

    /// Flip between light and dark; from the system theme, fall back to light.
    pub fn toggle(&mut self) -> (r: &Theme)
        ensures
            final(self).current_theme() == spec_toggled(old(self).current_theme()),
            *r == final(self).current_theme(),
    {
        self.current_theme = match self.current_theme {
            Theme::Light => Theme::Dark,
            Theme::Dark => Theme::Light,
            Theme::System => Theme::Light,
        };
        &self.current_theme
    }
}

/// What one toggle does to a theme.
pub open spec fn spec_toggled(t: Theme) -> Theme {
    match t {
        Theme::Light => Theme::Dark,
        Theme::Dark => Theme::Light,
        Theme::System => Theme::Light,
    }
}

impl Default for ThemeManager {
    fn default() -> (r: Self)
        ensures
            r.current_theme() == Theme::Light,
    {
        Self::new()
    }
}

} // verus!
