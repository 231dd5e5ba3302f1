use vstd::prelude::*;

verus! {

/// Names of all obligatory prayers, sunrise, and Qiyam.
///
/// The declaration order is the canonical daily order of the schedule
/// positions, used by the current/next lookup.
#[derive(PartialEq, Eq, Structural, Debug, Copy, Clone)]
pub enum Prayer {
    Fajr,
    Sunrise,
    Dhuhr,
    Asr,
    Maghrib,
    Ishaa,
    Qiyam,
    FajrTomorrow,
}

impl Prayer {
    /// Transliterated English name of the prayer.
    ///
    /// On Fridays the midday prayer is the congregational Jumua, so the
    /// caller passes the weekday explicitly; nothing here reads a clock.
    pub open spec fn spec_name(self, friday: bool) -> Seq<char> {
        match self {
            Prayer::Fajr | Prayer::FajrTomorrow => "Fajr"@,
            Prayer::Sunrise => "Sunrise"@,
            Prayer::Dhuhr => if friday {
                "Jumua"@
            } else {
                "Dhuhr"@
            },
            Prayer::Asr => "Asr"@,
            Prayer::Maghrib => "Maghrib"@,
            Prayer::Ishaa => "Ishaa"@,
            Prayer::Qiyam => "Qiyam"@,
        }
    }

    /// Returns the prayer's transliterated name, with the midday prayer
    /// named Jumua when `friday` is set.
    pub fn name(&self, friday: bool) -> (r: String)
        ensures
            r@ == self.spec_name(friday),
    {
        match self {
            Prayer::Fajr | Prayer::FajrTomorrow => String::from_str("Fajr"),
            Prayer::Sunrise => String::from_str("Sunrise"),
            Prayer::Dhuhr => {
                if friday {
                    String::from_str("Jumua")
                } else {
                    String::from_str("Dhuhr")
                }
            },
            Prayer::Asr => String::from_str("Asr"),
            Prayer::Maghrib => String::from_str("Maghrib"),
            Prayer::Ishaa => String::from_str("Ishaa"),
            Prayer::Qiyam => String::from_str("Qiyam"),
        }
    }

    /// Schedule-order successor of the prayer; `FajrTomorrow` is terminal
    /// and is its own successor.
    pub open spec fn spec_successor(self) -> Prayer {
        match self {
            Prayer::Fajr => Prayer::Sunrise,
            Prayer::Sunrise => Prayer::Dhuhr,
            Prayer::Dhuhr => Prayer::Asr,
            Prayer::Asr => Prayer::Maghrib,
            Prayer::Maghrib => Prayer::Ishaa,
            Prayer::Ishaa => Prayer::Qiyam,
            Prayer::Qiyam => Prayer::FajrTomorrow,
            Prayer::FajrTomorrow => Prayer::FajrTomorrow,
        }
    }
}

} // verus!
