use vstd::prelude::*;

verus! {

/// Largest magnitude, in minutes, accepted for a single per-prayer
/// adjustment: one year of minutes, far beyond any sensible correction,
/// but small enough that summing adjustments with timestamps cannot
/// overflow a 64-bit count of seconds.
pub const MAX_ADJUSTMENT_MINUTES: i64 = 525_600;

/// Time adjustment for all prayer times.
/// The value is specified in *minutes* and
/// can be either positive or negative.
#[derive(PartialEq, Eq, Structural, Debug, Copy, Clone)]
pub struct TimeAdjustment {
    pub fajr: i64,
    pub sunrise: i64,
    pub dhuhr: i64,
    pub asr: i64,
    pub maghrib: i64,
    pub ishaa: i64,
}

impl TimeAdjustment {
    /// Every per-prayer adjustment is within the accepted magnitude.
    pub open spec fn wf(self) -> bool {
        &&& -MAX_ADJUSTMENT_MINUTES <= self.fajr <= MAX_ADJUSTMENT_MINUTES
        &&& -MAX_ADJUSTMENT_MINUTES <= self.sunrise <= MAX_ADJUSTMENT_MINUTES
        &&& -MAX_ADJUSTMENT_MINUTES <= self.dhuhr <= MAX_ADJUSTMENT_MINUTES
        &&& -MAX_ADJUSTMENT_MINUTES <= self.asr <= MAX_ADJUSTMENT_MINUTES
        &&& -MAX_ADJUSTMENT_MINUTES <= self.maghrib <= MAX_ADJUSTMENT_MINUTES
        &&& -MAX_ADJUSTMENT_MINUTES <= self.ishaa <= MAX_ADJUSTMENT_MINUTES
    }

    /// Checks at run time that every adjustment is within the accepted
    /// magnitude.
    pub fn is_wf(&self) -> (r: bool)
        ensures
            r == self.wf(),
    {
        -MAX_ADJUSTMENT_MINUTES <= self.fajr && self.fajr <= MAX_ADJUSTMENT_MINUTES
            && -MAX_ADJUSTMENT_MINUTES <= self.sunrise && self.sunrise <= MAX_ADJUSTMENT_MINUTES
            && -MAX_ADJUSTMENT_MINUTES <= self.dhuhr && self.dhuhr <= MAX_ADJUSTMENT_MINUTES
            && -MAX_ADJUSTMENT_MINUTES <= self.asr && self.asr <= MAX_ADJUSTMENT_MINUTES
            && -MAX_ADJUSTMENT_MINUTES <= self.maghrib && self.maghrib <= MAX_ADJUSTMENT_MINUTES
            && -MAX_ADJUSTMENT_MINUTES <= self.ishaa && self.ishaa <= MAX_ADJUSTMENT_MINUTES
    }
}

impl Default for TimeAdjustment {
    /// All six adjustments default to zero minutes.
    fn default() -> (d: Self)
        ensures
            d == (TimeAdjustment { fajr: 0, sunrise: 0, dhuhr: 0, asr: 0, maghrib: 0, ishaa: 0 }),
    {
        TimeAdjustment { fajr: 0, sunrise: 0, dhuhr: 0, asr: 0, maghrib: 0, ishaa: 0 }
    }
}

/// A fluent, value-returning builder for a [`TimeAdjustment`]: each setter
/// consumes the builder and returns it with the one field replaced.
#[derive(PartialEq, Eq, Structural, Debug, Copy, Clone)]
pub struct Adjustment {
    pub adjustment: TimeAdjustment,
}

impl Adjustment {
    /// Starts from all-zero adjustments.
    pub fn new() -> (b: Adjustment)
        ensures
            b.adjustment == (TimeAdjustment {
                fajr: 0,
                sunrise: 0,
                dhuhr: 0,
                asr: 0,
                maghrib: 0,
                ishaa: 0,
            }),
    {
        Adjustment {
            adjustment: TimeAdjustment { fajr: 0, sunrise: 0, dhuhr: 0, asr: 0, maghrib: 0, ishaa: 0 },
        }
    }

    /// Sets the Fajr adjustment, in minutes.
    pub fn fajr(self, minutes: i64) -> (b: Adjustment)
        ensures
            b.adjustment == (TimeAdjustment { fajr: minutes, ..self.adjustment }),
    {
        Adjustment { adjustment: TimeAdjustment { fajr: minutes, ..self.adjustment } }
    }

    /// Sets the Sunrise adjustment, in minutes.
    pub fn sunrise(self, minutes: i64) -> (b: Adjustment)
        ensures
            b.adjustment == (TimeAdjustment { sunrise: minutes, ..self.adjustment }),
    {
        Adjustment { adjustment: TimeAdjustment { sunrise: minutes, ..self.adjustment } }
    }

    /// Sets the Dhuhr adjustment, in minutes.
    pub fn dhuhr(self, minutes: i64) -> (b: Adjustment)
        ensures
            b.adjustment == (TimeAdjustment { dhuhr: minutes, ..self.adjustment }),
    {
        Adjustment { adjustment: TimeAdjustment { dhuhr: minutes, ..self.adjustment } }
    }

    /// Sets the Asr adjustment, in minutes.
    pub fn asr(self, minutes: i64) -> (b: Adjustment)
        ensures
            b.adjustment == (TimeAdjustment { asr: minutes, ..self.adjustment }),
    {
        Adjustment { adjustment: TimeAdjustment { asr: minutes, ..self.adjustment } }
    }

    /// Sets the Maghrib adjustment, in minutes.
    pub fn maghrib(self, minutes: i64) -> (b: Adjustment)
        ensures
            b.adjustment == (TimeAdjustment { maghrib: minutes, ..self.adjustment }),
    {
        Adjustment { adjustment: TimeAdjustment { maghrib: minutes, ..self.adjustment } }
    }

    /// Sets the Ishaa adjustment, in minutes.
    pub fn ishaa(self, minutes: i64) -> (b: Adjustment)
        ensures
            b.adjustment == (TimeAdjustment { ishaa: minutes, ..self.adjustment }),
    {
        Adjustment { adjustment: TimeAdjustment { ishaa: minutes, ..self.adjustment } }
    }

    /// Finishes the builder, returning the assembled adjustments.
    pub fn done(self) -> (t: TimeAdjustment)
        ensures
            t == self.adjustment,
    {
        self.adjustment
    }
}

} // verus!
