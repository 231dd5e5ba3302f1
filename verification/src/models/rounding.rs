use vstd::prelude::*;

verus! {

/// How a computed instant is normalized to whole minutes.
#[derive(PartialEq, Eq, Structural, Debug, Copy, Clone)]
pub enum Rounding {
    /// Snap to the nearest minute; half a minute rounds up.
    Nearest,
    /// Advance to the next whole minute: an instant already on a minute
    /// boundary moves a full minute forward.
    Ceil,
    /// Leave the instant unmodified.
    Unrounded,
}

impl Default for Rounding {
    /// The default policy rounds to the nearest minute.
    fn default() -> (d: Self)
        ensures
            d == Rounding::Nearest,
    {
        Rounding::Nearest
    }
}

} // verus!
