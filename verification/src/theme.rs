//! The binary theme selection handed to the OS-level switch.

use vstd::prelude::*;

verus! {

#[derive(Clone, Copy, PartialEq, Eq, Structural, Debug)]
pub enum Theme {
    Light,
    Dark,
}

/// The value the OS appearance preference is set to for a selection:
/// `true` turns dark mode on, `false` turns it off.
pub fn dark_mode_flag(theme: Theme) -> (b: bool)
    ensures
        b == (theme is Dark),
{
    match theme {
        Theme::Light => false,
        Theme::Dark => true,
    }
}

} // verus!
