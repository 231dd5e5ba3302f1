use vstd::prelude::*;

verus! {

/// How the start of Ishaa is specified: either the sun reaching a
/// depression angle after sunset, in milli-degrees, or a fixed interval of
/// minutes after sunset.
#[derive(PartialEq, Eq, Structural, Debug, Copy, Clone)]
pub enum IshaaParameter {
    /// Solar depression angle below the horizon, in milli-degrees.
    Angle(i64),
    /// Minutes after sunset.
    Interval(i32),
}

impl Default for IshaaParameter {
    /// The default dusk specification is a zero depression angle.
    fn default() -> (d: Self)
        ensures
            d == IshaaParameter::Angle(0),
    {
        IshaaParameter::Angle(0)
    }
}

} // verus!
