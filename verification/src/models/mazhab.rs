use vstd::prelude::*;

verus! {

/// Setting for the Asr prayer time.
/// For the Hanafi mazhab, the Asr is a bit later
/// than that of the Shafi mazhab.
#[derive(PartialEq, Eq, Structural, Debug, Copy, Clone)]
pub enum Mazhab {
    Shafi,
    Hanafi,
}

impl Mazhab {
    /// Shadow-length factor of the mazhab: an object's shadow must reach
    /// this multiple of the object's height (beyond its noon shadow) for
    /// Asr to begin.
    pub fn shadow(&self) -> (factor: i32)
        ensures
            factor == self.spec_shadow(),
    {
        match self {
            Mazhab::Shafi => 1,
            Mazhab::Hanafi => 2,
        }
    }

    /// The shadow-length factor: 1 for Shafi, 2 for Hanafi.
    pub open spec fn spec_shadow(self) -> int {
        match self {
            Mazhab::Shafi => 1,
            Mazhab::Hanafi => 2,
        }
    }
}

impl Default for Mazhab {
    /// The default mazhab is Shafi.
    fn default() -> (d: Self)
        ensures
            d == Mazhab::Shafi,
    {
        Mazhab::Shafi
    }
}

} // verus!
