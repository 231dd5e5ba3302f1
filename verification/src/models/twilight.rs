use vstd::prelude::*;

verus! {

/// Shafaq is the twilight in the sky. Different madhabs define the
/// appearance of twilight differently. These values are used by the
/// moonsighting-committee method for the different ways to calculate Ishaa.
#[derive(PartialEq, Eq, Structural, Debug, Copy, Clone)]
pub enum Twilight {
    /// General is a combination of Ahmer and Abyad.
    General,
    /// Ahmer means the twilight is the red glow in the sky.
    /// Used by the Shafi, Maliki, and Hanbali madhabs.
    Red,
    /// Abyad means the twilight is the white glow in the sky.
    /// Used by the Hanafi madhab.
    White,
}

impl Default for Twilight {
    /// The default twilight variant is the general one.
    fn default() -> (d: Self)
        ensures
            d == Twilight::General,
    {
        Twilight::General
    }
}

} // verus!
