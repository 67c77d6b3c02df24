//! Theme commands over an explicit, session-held manager rather than
//! process-wide state.

use crate::irmin::types::Theme;
use crate::ui::theme::spec_toggled;
use crate::ui::theme::ThemeManager;
use vstd::prelude::*;

verus! {

/// Flips the session between light and dark and reports the new theme.
pub fn toggle_theme(manager: &mut ThemeManager) -> (r: Result<Theme, String>)
    ensures
        final(manager).current_theme() == spec_toggled(old(manager).current_theme()),
        r matches Ok(t) && t == final(manager).current_theme(),
{
    let t = *manager.toggle();
    Ok(t)
}

/// Reports the session's current theme.
pub fn get_current_theme(manager: &ThemeManager) -> (r: Result<Theme, String>)
    ensures
        r matches Ok(t) && t == manager.current_theme(),
{
    Ok(*manager.get_theme())
}

} // verus!
