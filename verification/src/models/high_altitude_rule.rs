use vstd::prelude::*;

verus! {

/// Policy bounding the dawn and night prayer computations where simple
/// depression-angle geometry degenerates near the poles: each rule selects
/// the fraction of the night used as a safety bound.
#[derive(PartialEq, Eq, Structural, Debug, Copy, Clone)]
pub enum HighLatitudeRule {
    /// Fajr is never earlier, and Ishaa never later, than half the night.
    MiddleOfTheNight,
    /// Fajr is never earlier, and Ishaa never later, than a seventh of
    /// the night.
    SeventhOfTheNight,
    /// The dawn and dusk depression angles, in degrees, are reinterpreted
    /// as sixtieths of the night.
    TwilightAngle,
}

impl Default for HighLatitudeRule {
    /// The default rule bounds both twilights by half the night.
    fn default() -> (d: Self)
        ensures
            d == HighLatitudeRule::MiddleOfTheNight,
    {
        HighLatitudeRule::MiddleOfTheNight
    }
}

} // verus!
