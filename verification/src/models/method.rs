use vstd::prelude::*;
use crate::models::adjustments::TimeAdjustment;
use crate::models::ishaa_parameter::IshaaParameter;
use crate::models::parameters::Parameters;
use crate::models::rounding::Rounding;

verus! {

/// Provides preset configurations for a few calculation authorities.
/// Angles are in milli-degrees.
#[derive(PartialEq, Eq, Structural, Debug, Copy, Clone)]
pub enum Method {
    /// Muslim World League. Standard Fajr angle of 18° and an Ishaa angle
    /// of 17°.
    MuslimWorldLeague,
    /// Egyptian General Authority of Survey. Fajr angle of 19.5° and an
    /// Ishaa angle of 17.5°.
    Egyptian,
    /// University of Islamic Sciences, Karachi. 18° for both Fajr and
    /// Ishaa.
    Karachi,
    /// Umm al-Qura University, Makkah. Uses a fixed interval of 90 minutes
    /// from Maghrib to calculate Ishaa, and a slightly earlier Fajr time
    /// with an angle of 18.5°. Note: you should add a +30 minute custom
    /// adjustment for Ishaa during Ramadan.
    UmmAlQura,
    /// Used in the UAE. Slightly earlier Fajr and slightly later Ishaa
    /// with angles of 18.2°.
    Dubai,
    /// Method developed by Khalid Shaukat, founder of Moonsighting
    /// Committee Worldwide. Uses standard 18° angles for Fajr and Ishaa in
    /// addition to seasonal adjustment values. This method automatically
    /// applies the 1/7 approximation rule for locations above 55°
    /// latitude. Recommended for North America and the UK.
    MoonsightingCommittee,
    /// Islamic Society of North America. Fajr and Ishaa angles of 15°.
    NorthAmerica,
    /// Used in Kuwait. Fajr angle of 18° and an Ishaa angle of 17.5°.
    Kuwait,
    /// Used in Qatar. A modified Umm al-Qura preset with a Fajr angle of
    /// 18°.
    Qatar,
    /// Used in Singapore. Fajr angle of 20°, Ishaa angle of 18°, and
    /// instants rounded up to the next minute.
    Singapore,
    /// No preset: all angles zero, to be configured explicitly.
    Other,
}

impl Method {
    /// The parameter preset of the authority: a pure lookup from the
    /// method tag to an immutable parameter record.
    pub open spec fn spec_parameters(self) -> Parameters {
        match self {
            Method::MuslimWorldLeague => Parameters {
                method: self,
                fajr_angle: 18_000,
                ishaa_parameter: IshaaParameter::Angle(17_000),
                method_adjustments: TimeAdjustment {
                    fajr: 0,
                    sunrise: 0,
                    dhuhr: 1,
                    asr: 0,
                    maghrib: 0,
                    ishaa: 0,
                },
                ..Parameters::spec_default()
            },
            Method::Egyptian => Parameters {
                method: self,
                fajr_angle: 19_500,
                ishaa_parameter: IshaaParameter::Angle(17_500),
                method_adjustments: TimeAdjustment {
                    fajr: 0,
                    sunrise: 0,
                    dhuhr: 1,
                    asr: 0,
                    maghrib: 0,
                    ishaa: 0,
                },
                ..Parameters::spec_default()
            },
            Method::Karachi => Parameters {
                method: self,
                fajr_angle: 18_000,
                ishaa_parameter: IshaaParameter::Angle(18_000),
                method_adjustments: TimeAdjustment {
                    fajr: 0,
                    sunrise: 0,
                    dhuhr: 1,
                    asr: 0,
                    maghrib: 0,
                    ishaa: 0,
                },
                ..Parameters::spec_default()
            },
            Method::UmmAlQura => Parameters {
                method: self,
                fajr_angle: 18_500,
                ishaa_parameter: IshaaParameter::Interval(90),
                ..Parameters::spec_default()
            },
            Method::Dubai => Parameters {
                method: self,
                fajr_angle: 18_200,
                ishaa_parameter: IshaaParameter::Angle(18_200),
                method_adjustments: TimeAdjustment {
                    fajr: 0,
                    sunrise: -3i64,
                    dhuhr: 3,
                    asr: 3,
                    maghrib: 3,
                    ishaa: 0,
                },
                ..Parameters::spec_default()
            },
            Method::MoonsightingCommittee => Parameters {
                method: self,
                fajr_angle: 18_000,
                ishaa_parameter: IshaaParameter::Angle(18_000),
                is_moonsighting_committee: true,
                method_adjustments: TimeAdjustment {
                    fajr: 0,
                    sunrise: 0,
                    dhuhr: 5,
                    asr: 0,
                    maghrib: 3,
                    ishaa: 0,
                },
                ..Parameters::spec_default()
            },
            Method::NorthAmerica => Parameters {
                method: self,
                fajr_angle: 15_000,
                ishaa_parameter: IshaaParameter::Angle(15_000),
                method_adjustments: TimeAdjustment {
                    fajr: 0,
                    sunrise: 0,
                    dhuhr: 1,
                    asr: 0,
                    maghrib: 0,
                    ishaa: 0,
                },
                ..Parameters::spec_default()
            },
            Method::Kuwait => Parameters {
                method: self,
                fajr_angle: 18_000,
                ishaa_parameter: IshaaParameter::Angle(17_500),
                ..Parameters::spec_default()
            },
            Method::Qatar => Parameters {
                method: self,
                fajr_angle: 18_000,
                ishaa_parameter: IshaaParameter::Interval(90),
                ..Parameters::spec_default()
            },
            Method::Singapore => Parameters {
                method: self,
                fajr_angle: 20_000,
                ishaa_parameter: IshaaParameter::Angle(18_000),
                rounding: Rounding::Ceil,
                method_adjustments: TimeAdjustment {
                    fajr: 0,
                    sunrise: 0,
                    dhuhr: 1,
                    asr: 0,
                    maghrib: 0,
                    ishaa: 0,
                },
                ..Parameters::spec_default()
            },
            Method::Other => Parameters { method: self, ..Parameters::spec_default() },
        }
    }

    /// Returns the parameter preset of the authority. Every preset is
    /// well-formed.
    pub fn parameters(&self) -> (p: Parameters)
        ensures
            p == self.spec_parameters(),
            p.wf(),
    {
        let base = Parameters::new(0, 0);
        match self {
            Method::MuslimWorldLeague => Parameters {
                method: *self,
                fajr_angle: 18_000,
                ishaa_parameter: IshaaParameter::Angle(17_000),
                method_adjustments: TimeAdjustment {
                    fajr: 0,
                    sunrise: 0,
                    dhuhr: 1,
                    asr: 0,
                    maghrib: 0,
                    ishaa: 0,
                },
                ..base
            },
            Method::Egyptian => Parameters {
                method: *self,
                fajr_angle: 19_500,
                ishaa_parameter: IshaaParameter::Angle(17_500),
                method_adjustments: TimeAdjustment {
                    fajr: 0,
                    sunrise: 0,
                    dhuhr: 1,
                    asr: 0,
                    maghrib: 0,
                    ishaa: 0,
                },
                ..base
            },
            Method::Karachi => Parameters {
                method: *self,
                fajr_angle: 18_000,
                ishaa_parameter: IshaaParameter::Angle(18_000),
                method_adjustments: TimeAdjustment {
                    fajr: 0,
                    sunrise: 0,
                    dhuhr: 1,
                    asr: 0,
                    maghrib: 0,
                    ishaa: 0,
                },
                ..base
            },
            Method::UmmAlQura => Parameters {
                method: *self,
                fajr_angle: 18_500,
                ishaa_parameter: IshaaParameter::Interval(90),
                ..base
            },
            Method::Dubai => Parameters {
                method: *self,
                fajr_angle: 18_200,
                ishaa_parameter: IshaaParameter::Angle(18_200),
                method_adjustments: TimeAdjustment {
                    fajr: 0,
                    sunrise: -3,
                    dhuhr: 3,
                    asr: 3,
                    maghrib: 3,
                    ishaa: 0,
                },
                ..base
            },
            Method::MoonsightingCommittee => Parameters {
                method: *self,
                fajr_angle: 18_000,
                ishaa_parameter: IshaaParameter::Angle(18_000),
                is_moonsighting_committee: true,
                method_adjustments: TimeAdjustment {
                    fajr: 0,
                    sunrise: 0,
                    dhuhr: 5,
                    asr: 0,
                    maghrib: 3,
                    ishaa: 0,
                },
                ..base
            },
            Method::NorthAmerica => Parameters {
                method: *self,
                fajr_angle: 15_000,
                ishaa_parameter: IshaaParameter::Angle(15_000),
                method_adjustments: TimeAdjustment {
                    fajr: 0,
                    sunrise: 0,
                    dhuhr: 1,
                    asr: 0,
                    maghrib: 0,
                    ishaa: 0,
                },
                ..base
            },
            Method::Kuwait => Parameters {
                method: *self,
                fajr_angle: 18_000,
                ishaa_parameter: IshaaParameter::Angle(17_500),
                ..base
            },
            Method::Qatar => Parameters {
                method: *self,
                fajr_angle: 18_000,
                ishaa_parameter: IshaaParameter::Interval(90),
                ..base
            },
            Method::Singapore => Parameters {
                method: *self,
                fajr_angle: 20_000,
                ishaa_parameter: IshaaParameter::Angle(18_000),
                rounding: Rounding::Ceil,
                method_adjustments: TimeAdjustment {
                    fajr: 0,
                    sunrise: 0,
                    dhuhr: 1,
                    asr: 0,
                    maghrib: 0,
                    ishaa: 0,
                },
                ..base
            },
            Method::Other => Parameters { method: *self, ..base },
        }
    }
}

} // verus!
