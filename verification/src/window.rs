//! The main window: what showing and toggling it come down to.

use vstd::prelude::*;

verus! {

/// What showing the main window does.
#[derive(Clone, Copy, Debug, PartialEq, Eq, Structural)]
pub enum ShowStep {
    /// Show, unminimize and focus the existing window.
    Reveal,
    /// The window was just created hidden; the user interface shows it
    /// itself once it has rendered.
    LeaveToFrontend,
    /// There is no window and none could be created.
    Nothing,
}

/// What toggling the main window does.
#[derive(Clone, Copy, Debug, PartialEq, Eq, Structural)]
pub enum ToggleStep {
    Hide,
    Show,
}

/// Showing the main window: `window_existed` tells whether it was already
/// open, `window_created` whether a missing one could be created.
pub fn plan_show(window_existed: bool, window_created: bool) -> (step: ShowStep)
    ensures
        step == (if window_existed {
            ShowStep::Reveal
        } else if window_created {
            ShowStep::LeaveToFrontend
        } else {
            ShowStep::Nothing
        }),
{
    if window_existed {
        ShowStep::Reveal
    } else if window_created {
        ShowStep::LeaveToFrontend
    } else {
        ShowStep::Nothing
    }
}

/// Toggling the main window: hide it when it is open and visible, show it
/// otherwise; `visible` is `None` when visibility could not be read, which
/// counts as hidden.
pub fn plan_toggle(window_found: bool, visible: Option<bool>) -> (step: ToggleStep)
    ensures
        step == (if window_found && visible == Some(true) {
            ToggleStep::Hide
        } else {
            ToggleStep::Show
        }),
{
    if window_found {
        let is_visible = match visible {
            Some(v) => v,
            None => false,
        };
        if is_visible {
            return ToggleStep::Hide;
        }
    }
    ToggleStep::Show
}

} // verus!
