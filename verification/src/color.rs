//! The icon color variant: dark or light, toggled by a left click.

use vstd::prelude::*;

verus! {

/// The icon palette in use; the animation starts dark.
#[derive(Clone, Copy, Debug, PartialEq, Eq, Structural)]
pub enum ColorMode {
    Dark,
    Light,
}

impl ColorMode {
    /// The other variant.
    pub open spec fn flipped(self) -> ColorMode {
        match self {
            ColorMode::Dark => ColorMode::Light,
            ColorMode::Light => ColorMode::Dark,
        }
    }

    /// Switches to the other variant.
    pub fn toggle(self) -> (r: ColorMode)
        ensures
            r == self.flipped(),
    {
        match self {
            ColorMode::Dark => ColorMode::Light,
            ColorMode::Light => ColorMode::Dark,
        }
    }
}

/// Toggling alternates and never sticks: a toggle always changes the variant,
/// and two toggles restore it, so repeated toggles cycle between the two
/// variants forever.
pub proof fn lemma_toggle_alternates(c: ColorMode)
    ensures
        c.flipped() != c,
        c.flipped().flipped() == c,
{
}

} // verus!
