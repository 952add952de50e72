//! The window's maximise button.
use vstd::prelude::*;

verus! {

/// What the maximise button does to the window.
#[derive(Clone, Copy, Debug, PartialEq, Eq, Structural)]
pub enum WindowChange {
    Maximize,
    Unmaximize,
}

/// The maximise button restores a maximised window and maximises any other;
/// a window whose state cannot be read counts as not maximised.
pub fn toggle_maximize(is_maximized: Option<bool>) -> (c: WindowChange)
    ensures
        c == (if is_maximized == Some(true) {
            WindowChange::Unmaximize
        } else {
            WindowChange::Maximize
        }),
{
    match is_maximized {
        Some(true) => WindowChange::Unmaximize,
        _ => WindowChange::Maximize,
    }
}

} // verus!
