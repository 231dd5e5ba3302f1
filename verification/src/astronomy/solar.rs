use vstd::prelude::*;
use crate::astronomy::ops::TS_LIMIT;

verus! {

/// Longest night accepted between a sunset and the following sunrise, in
/// seconds: two civil days.
pub const NIGHT_MAX_SECONDS: i64 = 172_800;

/// One day's solar geometry at a coordinate, as Unix timestamps in seconds.
///
/// These instants come from a solar-position ephemeris: transit, sunrise
/// and sunset at the standard 0.833° reference depression, the
/// depression-angle crossings configured for dawn and for dusk, and the
/// afternoon shadow instants for both mazhab shadow factors. The schedule
/// assembly validates their ordering and works from them; the
/// floating-point ephemeris itself lives outside the library.
#[derive(PartialEq, Eq, Structural, Debug, Copy, Clone)]
pub struct SolarDay {
    /// Solar transit (midday).
    pub transit: i64,
    /// Sunrise at the reference depression.
    pub sunrise: i64,
    /// Sunset at the reference depression.
    pub sunset: i64,
    /// Instant at which the sun reaches the configured dawn depression
    /// angle before transit.
    pub fajr_raw: i64,
    /// Instant at which the sun reaches the configured dusk depression
    /// angle after transit; equal to sunset when dusk is interval-based.
    pub ishaa_raw: i64,
    /// Afternoon instant for the single-shadow factor (Shafi).
    pub asr_shafi: i64,
    /// Afternoon instant for the double-shadow factor (Hanafi).
    pub asr_hanafi: i64,
}

impl SolarDay {
    /// The instants are in range and in solar order: dawn no later than
    /// sunrise, sunrise before transit, transit before sunset and no later
    /// than either afternoon instant, the single-shadow afternoon no later
    /// than the double-shadow one, and the dusk crossing no earlier than
    /// sunset.
    pub open spec fn wf(self) -> bool {
        &&& -TS_LIMIT <= self.fajr_raw <= self.sunrise
        &&& self.sunrise < self.transit < self.sunset
        &&& self.transit <= self.asr_shafi <= self.asr_hanafi <= TS_LIMIT
        &&& self.sunset <= self.ishaa_raw <= TS_LIMIT
    }

    /// Checks the ordering and range at run time.
    pub fn is_wf(&self) -> (r: bool)
        ensures
            r == self.wf(),
    {
        -TS_LIMIT <= self.fajr_raw && self.fajr_raw <= self.sunrise && self.sunrise < self.transit
            && self.transit < self.sunset && self.transit <= self.asr_shafi && self.asr_shafi
            <= self.asr_hanafi && self.asr_hanafi <= TS_LIMIT && self.sunset <= self.ishaa_raw
            && self.ishaa_raw <= TS_LIMIT
    }
}

/// The two-day solar lookahead the assembler works from: the target day,
/// the following day, and the sunrise of the day after that — night length
/// spans a day boundary, and the following day's Fajr needs its own night.
#[derive(PartialEq, Eq, Structural, Debug, Copy, Clone)]
pub struct SolarWindow {
    pub today: SolarDay,
    pub tomorrow: SolarDay,
    /// Sunrise of the day after `tomorrow`.
    pub day_after_sunrise: i64,
}

impl SolarWindow {
    /// The night between the target day's sunset and the following
    /// sunrise.
    pub open spec fn spec_night(self) -> int {
        self.tomorrow.sunrise - self.today.sunset
    }

    /// The night between the following day's sunset and the sunrise after
    /// it.
    pub open spec fn spec_night_tomorrow(self) -> int {
        self.day_after_sunrise - self.tomorrow.sunset
    }

    /// Both days are well-formed and each night is positive and at most
    /// two days long.
    pub open spec fn wf(self) -> bool {
        &&& self.today.wf()
        &&& self.tomorrow.wf()
        &&& 0 < self.spec_night() <= NIGHT_MAX_SECONDS
        &&& 0 < self.spec_night_tomorrow() <= NIGHT_MAX_SECONDS
        &&& self.day_after_sunrise <= TS_LIMIT
    }

    /// Checks the window at run time.
    pub fn is_wf(&self) -> (r: bool)
        ensures
            r == self.wf(),
    {
        self.today.is_wf() && self.tomorrow.is_wf() && self.today.sunset < self.tomorrow.sunrise
            && self.tomorrow.sunrise - self.today.sunset <= NIGHT_MAX_SECONDS
            && self.tomorrow.sunset < self.day_after_sunrise && self.day_after_sunrise <= TS_LIMIT
            && self.day_after_sunrise - self.tomorrow.sunset <= NIGHT_MAX_SECONDS
    }
}

} // verus!
