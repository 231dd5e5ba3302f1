use vstd::prelude::*;
use crate::models::adjustments::TimeAdjustment;
use crate::models::high_altitude_rule::HighLatitudeRule;
use crate::models::ishaa_parameter::IshaaParameter;
use crate::models::mazhab::Mazhab;
use crate::models::method::Method;
use crate::models::prayer::Prayer;
use crate::models::rounding::Rounding;
use crate::models::twilight::Twilight;

verus! {

/// Largest depression angle accepted for a twilight specification, in
/// milli-degrees: ninety degrees, the whole way to the nadir.
pub const MAX_ANGLE_MILLI_DEGREES: i64 = 90_000;

/// Largest fixed Ishaa interval accepted, in minutes: a full day.
pub const MAX_ISHAA_INTERVAL_MINUTES: i32 = 1440;

/// An exact ratio. Night portions are fractions such as a half, a seventh,
/// or a depression angle's share of sixty degrees, and are kept as
/// numerator and denominator so that the safety bounds are computed without
/// loss.
#[derive(PartialEq, Eq, Structural, Debug, Copy, Clone)]
pub struct Fraction {
    pub num: i64,
    pub den: i64,
}

/// The pair of night fractions used as safety bounds: the morning fraction
/// bounds Fajr before sunrise, the evening fraction bounds Ishaa after
/// sunset.
#[derive(PartialEq, Eq, Structural, Debug, Copy, Clone)]
pub struct NightPortions {
    pub morning: Fraction,
    pub evening: Fraction,
}

/// Settings that are used for determining the correct prayer times.
///
/// It is recommended to use [`Configuration`] to build the parameters that
/// are needed. Angles are depression angles in milli-degrees; adjustments
/// are minutes.
#[derive(PartialEq, Eq, Structural, Debug, Copy, Clone)]
pub struct Parameters {
    pub method: Method,
    pub fajr_angle: i64,
    pub maghrib_angle: i64,
    pub ishaa_parameter: IshaaParameter,
    pub madhab: Mazhab,
    pub high_latitude_rule: HighLatitudeRule,
    pub adjustments: TimeAdjustment,
    pub method_adjustments: TimeAdjustment,
    pub rounding: Rounding,
    pub twilight: Twilight,
    pub is_moonsighting_committee: bool,
}

impl Parameters {
    /// Angles lie between the horizon and the nadir, a fixed Ishaa
    /// interval within a day, and every adjustment within the accepted
    /// magnitude.
    pub open spec fn wf(self) -> bool {
        &&& 0 <= self.fajr_angle <= MAX_ANGLE_MILLI_DEGREES
        &&& 0 <= self.maghrib_angle <= MAX_ANGLE_MILLI_DEGREES
        &&& match self.ishaa_parameter {
            IshaaParameter::Angle(a) => 0 <= a <= MAX_ANGLE_MILLI_DEGREES,
            IshaaParameter::Interval(i) => 0 <= i <= MAX_ISHAA_INTERVAL_MINUTES,
        }
        &&& self.adjustments.wf()
        &&& self.method_adjustments.wf()
    }

    /// Checks well-formedness at run time.
    pub fn is_wf(&self) -> (r: bool)
        ensures
            r == self.wf(),
    {
        let ishaa_ok = match self.ishaa_parameter {
            IshaaParameter::Angle(a) => 0 <= a && a <= MAX_ANGLE_MILLI_DEGREES,
            IshaaParameter::Interval(i) => 0 <= i && i <= MAX_ISHAA_INTERVAL_MINUTES,
        };
        0 <= self.fajr_angle && self.fajr_angle <= MAX_ANGLE_MILLI_DEGREES && 0
            <= self.maghrib_angle && self.maghrib_angle <= MAX_ANGLE_MILLI_DEGREES && ishaa_ok
            && self.adjustments.is_wf() && self.method_adjustments.is_wf()
    }

    /// The parameter bundle with every field at its default: no method, a
    /// zero dawn angle, a zero dusk angle, the Shafi mazhab, the
    /// middle-of-the-night rule, no adjustments, nearest-minute rounding
    /// and the general twilight.
    pub open spec fn spec_default() -> Parameters {
        Parameters {
            method: Method::Other,
            fajr_angle: 0,
            maghrib_angle: 0,
            ishaa_parameter: IshaaParameter::Angle(0),
            madhab: Mazhab::Shafi,
            high_latitude_rule: HighLatitudeRule::MiddleOfTheNight,
            adjustments: TimeAdjustment { fajr: 0, sunrise: 0, dhuhr: 0, asr: 0, maghrib: 0, ishaa: 0 },
            method_adjustments: TimeAdjustment {
                fajr: 0,
                sunrise: 0,
                dhuhr: 0,
                asr: 0,
                maghrib: 0,
                ishaa: 0,
            },
            rounding: Rounding::Nearest,
            twilight: Twilight::General,
            is_moonsighting_committee: false,
        }
    }

    /// Builds a parameter bundle from a dawn and a dusk depression angle,
    /// in milli-degrees, with every other field at its default.
    pub fn new(fajr_angle: i64, ishaa_angle: i64) -> (p: Parameters)
        ensures
            p == (Parameters {
                fajr_angle,
                ishaa_parameter: IshaaParameter::Angle(ishaa_angle),
                ..Parameters::spec_default()
            }),
    {
        Parameters {
            method: Method::Other,
            fajr_angle,
            maghrib_angle: 0,
            ishaa_parameter: IshaaParameter::Angle(ishaa_angle),
            madhab: Mazhab::Shafi,
            high_latitude_rule: HighLatitudeRule::MiddleOfTheNight,
            adjustments: TimeAdjustment { fajr: 0, sunrise: 0, dhuhr: 0, asr: 0, maghrib: 0, ishaa: 0 },
            method_adjustments: TimeAdjustment {
                fajr: 0,
                sunrise: 0,
                dhuhr: 0,
                asr: 0,
                maghrib: 0,
                ishaa: 0,
            },
            rounding: Rounding::Nearest,
            twilight: Twilight::General,
            is_moonsighting_committee: false,
        }
    }

    /// The night fractions selected by the high-latitude rule: half and
    /// half for the middle of the night, a seventh and a seventh for the
    /// seventh of the night, and for the twilight-angle rule each
    /// depression angle's share of sixty degrees — zero for the evening
    /// when the dusk specification is an interval.
    pub open spec fn spec_night_portions(self) -> NightPortions {
        match self.high_latitude_rule {
            HighLatitudeRule::MiddleOfTheNight => NightPortions {
                morning: Fraction { num: 1, den: 2 },
                evening: Fraction { num: 1, den: 2 },
            },
            HighLatitudeRule::SeventhOfTheNight => NightPortions {
                morning: Fraction { num: 1, den: 7 },
                evening: Fraction { num: 1, den: 7 },
            },
            HighLatitudeRule::TwilightAngle => NightPortions {
                morning: Fraction { num: self.fajr_angle as i64, den: 60_000 },
                evening: Fraction {
                    num: match self.ishaa_parameter {
                        IshaaParameter::Angle(a) => a,
                        IshaaParameter::Interval(_) => 0,
                    },
                    den: 60_000,
                },
            },
        }
    }

    /// Returns the night fractions selected by the high-latitude rule.
    pub fn night_portions(&self) -> (r: NightPortions)
        ensures
            r == self.spec_night_portions(),
    {
        match self.high_latitude_rule {
            HighLatitudeRule::MiddleOfTheNight => NightPortions {
                morning: Fraction { num: 1, den: 2 },
                evening: Fraction { num: 1, den: 2 },
            },
            HighLatitudeRule::SeventhOfTheNight => NightPortions {
                morning: Fraction { num: 1, den: 7 },
                evening: Fraction { num: 1, den: 7 },
            },
            HighLatitudeRule::TwilightAngle => NightPortions {
                morning: Fraction { num: self.fajr_angle, den: 60_000 },
                evening: Fraction {
                    num: match self.ishaa_parameter {
                        IshaaParameter::Angle(a) => a,
                        IshaaParameter::Interval(_) => 0,
                    },
                    den: 60_000,
                },
            },
        }
    }

    /// The total adjustment applied to a prayer: the user-supplied and the
    /// method-supplied minutes, summed. Qiyam and the following day's Fajr
    /// carry no adjustment of their own.
    pub open spec fn spec_time_adjustments(self, prayer: Prayer) -> int {
        match prayer {
            Prayer::Fajr => self.adjustments.fajr + self.method_adjustments.fajr,
            Prayer::Sunrise => self.adjustments.sunrise + self.method_adjustments.sunrise,
            Prayer::Dhuhr => self.adjustments.dhuhr + self.method_adjustments.dhuhr,
            Prayer::Asr => self.adjustments.asr + self.method_adjustments.asr,
            Prayer::Maghrib => self.adjustments.maghrib + self.method_adjustments.maghrib,
            Prayer::Ishaa => self.adjustments.ishaa + self.method_adjustments.ishaa,
            _ => 0,
        }
    }

    /// Returns the summed user and method adjustment for the prayer, in
    /// minutes.
    pub fn time_adjustments(&self, prayer: Prayer) -> (r: i64)
        requires
            self.adjustments.wf(),
            self.method_adjustments.wf(),
        ensures
            r == self.spec_time_adjustments(prayer),
    {
        match prayer {
            Prayer::Fajr => self.adjustments.fajr + self.method_adjustments.fajr,
            Prayer::Sunrise => self.adjustments.sunrise + self.method_adjustments.sunrise,
            Prayer::Dhuhr => self.adjustments.dhuhr + self.method_adjustments.dhuhr,
            Prayer::Asr => self.adjustments.asr + self.method_adjustments.asr,
            Prayer::Maghrib => self.adjustments.maghrib + self.method_adjustments.maghrib,
            Prayer::Ishaa => self.adjustments.ishaa + self.method_adjustments.ishaa,
            _ => 0,
        }
    }
}

impl Default for Parameters {
    /// The all-default parameter bundle.
    fn default() -> (d: Self)
        ensures
            d == Parameters::spec_default(),
    {
        Parameters::new(0, 0)
    }
}

/// A fluent, value-returning builder for [`Parameters`]: each setter
/// consumes the builder and returns it with the one setting replaced.
#[derive(PartialEq, Eq, Structural, Debug, Copy, Clone)]
pub struct Configuration {
    pub params: Parameters,
}

impl Configuration {
    /// Starts from a dawn and a dusk depression angle, in milli-degrees,
    /// with every other setting at its default.
    pub fn new(fajr_angle: i64, ishaa_angle: i64) -> (c: Configuration)
        ensures
            c.params == (Parameters {
                fajr_angle,
                ishaa_parameter: IshaaParameter::Angle(ishaa_angle),
                ..Parameters::spec_default()
            }),
    {
        Configuration { params: Parameters::new(fajr_angle, ishaa_angle) }
    }

    /// The parameters of the given calculation method, with the given
    /// mazhab.
    pub fn with(method: Method, madhab: Mazhab) -> (p: Parameters)
        ensures
            p == (Parameters { madhab, ..method.spec_parameters() }),
    {
        let params = method.parameters();
        Parameters { madhab, ..params }
    }

    /// Sets the calculation method tag.
    pub fn method(self, method: Method) -> (c: Configuration)
        ensures
            c.params == (Parameters { method, ..self.params }),
    {
        Configuration { params: Parameters { method, ..self.params } }
    }

    /// Sets the method-supplied minute adjustments.
    pub fn method_adjustments(self, method_adjustments: TimeAdjustment) -> (c: Configuration)
        ensures
            c.params == (Parameters { method_adjustments, ..self.params }),
    {
        Configuration { params: Parameters { method_adjustments, ..self.params } }
    }

    /// Sets the high-latitude rule.
    pub fn high_latitude_rule(self, high_latitude_rule: HighLatitudeRule) -> (c: Configuration)
        ensures
            c.params == (Parameters { high_latitude_rule, ..self.params }),
    {
        Configuration { params: Parameters { high_latitude_rule, ..self.params } }
    }

    /// Sets the mazhab.
    pub fn madhab(self, madhab: Mazhab) -> (c: Configuration)
        ensures
            c.params == (Parameters { madhab, ..self.params }),
    {
        Configuration { params: Parameters { madhab, ..self.params } }
    }

    /// Makes the dusk specification a fixed interval of minutes after
    /// sunset.
    pub fn ishaa_interval(self, ishaa_interval: i32) -> (c: Configuration)
        ensures
            c.params == (Parameters {
                ishaa_parameter: IshaaParameter::Interval(ishaa_interval),
                ..self.params
            }),
    {
        Configuration {
            params: Parameters {
                ishaa_parameter: IshaaParameter::Interval(ishaa_interval),
                ..self.params
            },
        }
    }

    /// Sets the Maghrib depression angle, in milli-degrees.
    pub fn maghrib_angle(self, angle: i64) -> (c: Configuration)
        ensures
            c.params == (Parameters { maghrib_angle: angle, ..self.params }),
    {
        Configuration { params: Parameters { maghrib_angle: angle, ..self.params } }
    }

    /// Sets the rounding policy.
    pub fn rounding(self, value: Rounding) -> (c: Configuration)
        ensures
            c.params == (Parameters { rounding: value, ..self.params }),
    {
        Configuration { params: Parameters { rounding: value, ..self.params } }
    }

    /// Sets the twilight variant used by the moonsighting evening
    /// correction.
    pub fn twilight(self, value: Twilight) -> (c: Configuration)
        ensures
            c.params == (Parameters { twilight: value, ..self.params }),
    {
        Configuration { params: Parameters { twilight: value, ..self.params } }
    }

    /// Finishes the builder, returning the assembled parameters.
    pub fn done(self) -> (p: Parameters)
        ensures
            p == self.params,
    {
        self.params
    }
}

} // verus!
