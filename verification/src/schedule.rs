//! The prayer-time assembler: from one day's civil date, coordinate,
//! parameters and two-day solar lookahead to the ordered daily schedule.

use vstd::prelude::*;
use vstd::arithmetic::div_mod::{
    lemma_div_by_multiple, lemma_div_is_ordered, lemma_div_pos_is_pos, lemma_fundamental_div_mod,
};
use crate::astronomy::ops::{
    adjust_time, lemma_rounding_close, lemma_rounding_monotone, rounded_minute,
    season_adjusted_evening_twilight, season_adjusted_morning_twilight, spec_evening_twilight,
    spec_morning_twilight, spec_round, OP_LIMIT,
};
use crate::astronomy::solar::{SolarDay, SolarWindow, NIGHT_MAX_SECONDS};
use crate::astronomy::unit::Coordinates;
use crate::models::date::Date;
use crate::models::ishaa_parameter::IshaaParameter;
use crate::models::mazhab::Mazhab;
use crate::models::parameters::{Fraction, Parameters};
use crate::models::prayer::Prayer;
use crate::models::rounding::Rounding;

verus! {

/// Latitude magnitude, in nano-degrees, from which the
/// moonsighting-committee method replaces the raw depression estimates
/// with the night-seventh escape valve: 55 degrees, north or south.
pub const MOONSIGHTING_HIGH_LATITUDE: i64 = 55_000_000_000;

/// The whole-second share of the night taken by a fraction.
pub open spec fn spec_night_fraction(f: Fraction, night: int) -> int {
    (night * f.num) / (f.den as int)
}

/// Computes the whole-second share of the night taken by a fraction of at
/// most two.
fn night_fraction(f: Fraction, night: i64) -> (r: i64)
    requires
        0 <= f.num,
        0 < f.den,
        f.num <= 2 * f.den,
        f.den <= 60_000,
        0 <= night <= NIGHT_MAX_SECONDS,
    ensures
        r == spec_night_fraction(f, night as int),
        0 <= r <= 2 * night,
{
    proof {
        assert(0 <= night * f.num <= (2 * night) * f.den && night * f.num
            <= 20_736_000_000) by (nonlinear_arith)
            requires
                0 <= night <= NIGHT_MAX_SECONDS,
                0 <= f.num <= 2 * f.den,
                0 < f.den <= 60_000,
        ;
        lemma_div_pos_is_pos(night * f.num, f.den as int);
        lemma_div_is_ordered(night * f.num, (2 * night) * f.den, f.den as int);
        lemma_div_by_multiple(2 * night, f.den as int);
    }
    (night * f.num) / f.den
}

/// The raw dawn estimate: the configured depression crossing, except that
/// the moonsighting-committee method at or above 55° latitude, north or
/// south, uses sunrise minus a seventh of the night.
pub open spec fn spec_raw_fajr(day: SolarDay, night: int, p: Parameters, c: Coordinates) -> int {
    if p.is_moonsighting_committee && c.spec_abs_latitude() >= MOONSIGHTING_HIGH_LATITUDE {
        day.sunrise - night / 7
    } else {
        day.fajr_raw as int
    }
}

/// The dawn safety bound: the seasonal twilight correction under the
/// moonsighting-committee method, otherwise sunrise minus the morning
/// night portion.
pub open spec fn spec_safe_fajr(
    day: SolarDay,
    night: int,
    p: Parameters,
    c: Coordinates,
    date: Date,
) -> int {
    if p.is_moonsighting_committee {
        spec_morning_twilight(
            c.latitude as int,
            date.spec_day_of_year(),
            date.year as int,
            day.sunrise as int,
        )
    } else {
        day.sunrise - spec_night_fraction(p.spec_night_portions().morning, night)
    }
}

/// Dawn before adjustments: the raw estimate, but never earlier than the
/// safety bound.
pub open spec fn spec_unadjusted_fajr(
    day: SolarDay,
    night: int,
    p: Parameters,
    c: Coordinates,
    date: Date,
) -> int {
    let raw = spec_raw_fajr(day, night, p, c);
    let safe = spec_safe_fajr(day, night, p, c, date);
    if raw < safe {
        safe
    } else {
        raw
    }
}

/// Dawn with the summed user and method adjustment applied.
pub open spec fn spec_adjusted_fajr(
    day: SolarDay,
    night: int,
    p: Parameters,
    c: Coordinates,
    date: Date,
) -> int {
    spec_unadjusted_fajr(day, night, p, c, date) + p.spec_time_adjustments(Prayer::Fajr) * 60
}

/// The raw dusk estimate for an angle-based dusk: the configured
/// depression crossing, with the same high-latitude escape valve as dawn,
/// mirrored to sunset plus a seventh of the night.
pub open spec fn spec_raw_ishaa(day: SolarDay, night: int, p: Parameters, c: Coordinates) -> int {
    if p.is_moonsighting_committee && c.spec_abs_latitude() >= MOONSIGHTING_HIGH_LATITUDE {
        day.sunset + night / 7
    } else {
        day.ishaa_raw as int
    }
}

/// The dusk safety bound for an angle-based dusk: the seasonal twilight
/// correction under the moonsighting-committee method, otherwise sunset
/// plus the evening night portion.
pub open spec fn spec_safe_ishaa(
    day: SolarDay,
    night: int,
    p: Parameters,
    c: Coordinates,
    date: Date,
) -> int {
    if p.is_moonsighting_committee {
        spec_evening_twilight(
            c.latitude as int,
            date.spec_day_of_year(),
            date.year as int,
            day.sunset as int,
            p.twilight,
        )
    } else {
        day.sunset + spec_night_fraction(p.spec_night_portions().evening, night)
    }
}

/// Dusk before adjustments: a fixed interval after sunset when dusk is
/// interval-based; otherwise the raw estimate, but never later than the
/// safety bound.
pub open spec fn spec_unadjusted_ishaa(
    day: SolarDay,
    night: int,
    p: Parameters,
    c: Coordinates,
    date: Date,
) -> int {
    match p.ishaa_parameter {
        IshaaParameter::Interval(interval) => day.sunset + interval * 60,
        IshaaParameter::Angle(_) => {
            let raw = spec_raw_ishaa(day, night, p, c);
            let safe = spec_safe_ishaa(day, night, p, c, date);
            if raw > safe {
                safe
            } else {
                raw
            }
        },
    }
}

/// Dusk with the summed user and method adjustment applied.
pub open spec fn spec_adjusted_ishaa(
    day: SolarDay,
    night: int,
    p: Parameters,
    c: Coordinates,
    date: Date,
) -> int {
    spec_unadjusted_ishaa(day, night, p, c, date) + p.spec_time_adjustments(Prayer::Ishaa) * 60
}

/// The afternoon instant selected by the mazhab's shadow factor.
pub open spec fn spec_asr_unadjusted(day: SolarDay, madhab: Mazhab) -> int {
    match madhab {
        Mazhab::Shafi => day.asr_shafi as int,
        Mazhab::Hanafi => day.asr_hanafi as int,
    }
}

/// Sunrise with its adjustment applied, before rounding.
pub open spec fn spec_adjusted_sunrise(w: SolarWindow, p: Parameters) -> int {
    w.today.sunrise + p.spec_time_adjustments(Prayer::Sunrise) * 60
}

/// Solar transit with the Dhuhr adjustment applied, before rounding.
pub open spec fn spec_adjusted_dhuhr(w: SolarWindow, p: Parameters) -> int {
    w.today.transit + p.spec_time_adjustments(Prayer::Dhuhr) * 60
}

/// The mazhab's afternoon instant with the Asr adjustment applied, before
/// rounding.
pub open spec fn spec_adjusted_asr(w: SolarWindow, p: Parameters) -> int {
    spec_asr_unadjusted(w.today, p.madhab) + p.spec_time_adjustments(Prayer::Asr) * 60
}

/// Sunset with the Maghrib adjustment applied, before rounding.
pub open spec fn spec_adjusted_maghrib(w: SolarWindow, p: Parameters) -> int {
    w.today.sunset + p.spec_time_adjustments(Prayer::Maghrib) * 60
}

/// The scheduled Fajr: bounded, adjusted and rounded.
pub open spec fn spec_fajr_time(w: SolarWindow, p: Parameters, c: Coordinates, date: Date) -> int {
    spec_round(p.rounding, spec_adjusted_fajr(w.today, w.spec_night(), p, c, date))
}

/// The scheduled sunrise: adjusted and rounded.
pub open spec fn spec_sunrise_time(w: SolarWindow, p: Parameters) -> int {
    spec_round(p.rounding, spec_adjusted_sunrise(w, p))
}

/// The scheduled Dhuhr: solar transit, adjusted and rounded.
pub open spec fn spec_dhuhr_time(w: SolarWindow, p: Parameters) -> int {
    spec_round(p.rounding, spec_adjusted_dhuhr(w, p))
}

/// The scheduled Asr: the mazhab's afternoon instant, adjusted and
/// rounded.
pub open spec fn spec_asr_time(w: SolarWindow, p: Parameters) -> int {
    spec_round(p.rounding, spec_adjusted_asr(w, p))
}

/// The scheduled Maghrib: sunset, adjusted and rounded.
pub open spec fn spec_maghrib_time(w: SolarWindow, p: Parameters) -> int {
    spec_round(p.rounding, spec_adjusted_maghrib(w, p))
}

/// The scheduled Ishaa: bounded, adjusted and rounded.
pub open spec fn spec_ishaa_time(w: SolarWindow, p: Parameters, c: Coordinates, date: Date) -> int {
    spec_round(p.rounding, spec_adjusted_ishaa(w.today, w.spec_night(), p, c, date))
}

/// The following day's Fajr: computed from the following day's geometry
/// and night, adjusted but deliberately not rounded.
pub open spec fn spec_fajr_tomorrow_time(
    w: SolarWindow,
    p: Parameters,
    c: Coordinates,
    date: Date,
) -> int {
    spec_adjusted_fajr(w.tomorrow, w.spec_night_tomorrow(), p, c, date.spec_next())
}

/// The night the voluntary prayers divide: from the scheduled Maghrib to
/// the following day's Fajr.
pub open spec fn spec_night_duration(w: SolarWindow, p: Parameters, c: Coordinates, date: Date) -> int {
    spec_fajr_tomorrow_time(w, p, c, date) - spec_maghrib_time(w, p)
}

/// The middle of the night, always rounded to the nearest minute.
pub open spec fn spec_middle_of_night_time(
    w: SolarWindow,
    p: Parameters,
    c: Coordinates,
    date: Date,
) -> int {
    spec_round(
        Rounding::Nearest,
        spec_maghrib_time(w, p) + spec_night_duration(w, p, c, date) / 2,
    )
}

/// The start of the last third of the night, exposed as Qiyam, always
/// rounded to the nearest minute.
pub open spec fn spec_qiyam_time(w: SolarWindow, p: Parameters, c: Coordinates, date: Date) -> int {
    spec_round(
        Rounding::Nearest,
        spec_maghrib_time(w, p) + (2 * spec_night_duration(w, p, c, date)) / 3,
    )
}

/// The schedule `s` is exactly the one specified for the given date,
/// coordinate, parameters and solar window: it carries those inputs, every
/// instant equals its specification, and every instant is in range.
pub open spec fn spec_schedule_matches(
    s: PrayerTimes,
    date: Date,
    c: Coordinates,
    p: Parameters,
    w: SolarWindow,
) -> bool {
    &&& p.wf()
    &&& c.valid()
    &&& w.wf()
    &&& spec_night_duration(w, p, c, date) >= 0
    &&& s.spec_date() == date
    &&& s.spec_coordinates() == c
    &&& s.spec_parameters() == p
    &&& s.wf()
    &&& s.spec_time(Prayer::Fajr) == spec_fajr_time(w, p, c, date)
    &&& s.spec_time(Prayer::Sunrise) == spec_sunrise_time(w, p)
    &&& s.spec_time(Prayer::Dhuhr) == spec_dhuhr_time(w, p)
    &&& s.spec_time(Prayer::Asr) == spec_asr_time(w, p)
    &&& s.spec_time(Prayer::Maghrib) == spec_maghrib_time(w, p)
    &&& s.spec_time(Prayer::Ishaa) == spec_ishaa_time(w, p, c, date)
    &&& s.spec_time(Prayer::Qiyam) == spec_qiyam_time(w, p, c, date)
    &&& s.spec_time(Prayer::FajrTomorrow) == spec_fajr_tomorrow_time(w, p, c, date)
    &&& s.spec_middle_of_the_night() == spec_middle_of_night_time(w, p, c, date)
}

/// The error `e` is exactly the one specified for the given inputs: each
/// construction error comes on precisely the inputs that earn it, checked
/// in order.
pub open spec fn spec_schedule_error_matches(
    e: ScheduleError,
    date: Date,
    c: Coordinates,
    p: Parameters,
    w: SolarWindow,
) -> bool {
    match e {
        ScheduleError::InvalidParameters => !p.wf(),
        ScheduleError::InvalidCoordinates => p.wf() && !c.valid(),
        ScheduleError::InvalidSolarWindow => p.wf() && c.valid() && !w.wf(),
        ScheduleError::DegenerateNight => p.wf() && c.valid() && w.wf() && spec_night_duration(
            w,
            p,
            c,
            date,
        ) < 0,
        ScheduleError::MissingInformation => false,
    }
}

/// Why a schedule could not be produced.
#[derive(PartialEq, Eq, Structural, Debug, Copy, Clone)]
pub enum ScheduleError {
    /// The builder was asked to calculate before the date, the location,
    /// the parameters or the solar window were supplied.
    MissingInformation,
    /// An angle, interval or adjustment of the parameter bundle is out of
    /// range.
    InvalidParameters,
    /// The coordinate is not a valid latitude/longitude pair.
    InvalidCoordinates,
    /// The solar window's instants are out of range or out of solar order.
    InvalidSolarWindow,
    /// The following day's Fajr lands before the scheduled Maghrib, so no
    /// night remains for the voluntary prayers.
    DegenerateNight,
}

impl ScheduleError {
    /// A descriptive message for the failure.
    pub fn message(&self) -> (r: String)
        ensures
            self == ScheduleError::MissingInformation ==> r@ == (
            "Required information is needed in order to calculate the prayer times."@),
            self == ScheduleError::InvalidParameters ==> r@ == (
            "The calculation parameters are out of range."@),
            self == ScheduleError::InvalidCoordinates ==> r@ == (
            "The coordinates do not name a valid latitude and longitude."@),
            self == ScheduleError::InvalidSolarWindow ==> r@ == (
            "The solar window is out of range or out of solar order."@),
            self == ScheduleError::DegenerateNight ==> r@ == (
            "No night remains between Maghrib and the following dawn."@),
    {
        match self {
            ScheduleError::MissingInformation => String::from_str(
                "Required information is needed in order to calculate the prayer times.",
            ),
            ScheduleError::InvalidParameters => String::from_str(
                "The calculation parameters are out of range.",
            ),
            ScheduleError::InvalidCoordinates => String::from_str(
                "The coordinates do not name a valid latitude and longitude.",
            ),
            ScheduleError::InvalidSolarWindow => String::from_str(
                "The solar window is out of range or out of solar order.",
            ),
            ScheduleError::DegenerateNight => String::from_str(
                "No night remains between Maghrib and the following dawn.",
            ),
        }
    }
}

/// The computed daily schedule: eight ordered instants plus the middle of
/// the night, tagged with the coordinate, date and parameters used.
/// Created once by the assembler and never mutated.
#[derive(PartialEq, Debug, Copy, Clone)]
pub struct PrayerTimes {
    fajr: i64,
    sunrise: i64,
    dhuhr: i64,
    asr: i64,
    maghrib: i64,
    ishaa: i64,
    middle_of_the_night: i64,
    qiyam: i64,
    fajr_tomorrow: i64,
    coordinates: Coordinates,
    date: Date,
    parameters: Parameters,
}

/// The latest schedule position already begun at `time`, scanning from the
/// following day's Fajr back to today's: the first instant in that order
/// that is no later than `time`; none when `time` precedes today's Fajr.
pub open spec fn spec_current_from(
    fajr: int,
    sunrise: int,
    dhuhr: int,
    asr: int,
    maghrib: int,
    ishaa: int,
    qiyam: int,
    fajr_tomorrow: int,
    time: int,
) -> Option<Prayer> {
    if fajr_tomorrow <= time {
        Some(Prayer::FajrTomorrow)
    } else if qiyam <= time {
        Some(Prayer::Qiyam)
    } else if ishaa <= time {
        Some(Prayer::Ishaa)
    } else if maghrib <= time {
        Some(Prayer::Maghrib)
    } else if asr <= time {
        Some(Prayer::Asr)
    } else if dhuhr <= time {
        Some(Prayer::Dhuhr)
    } else if sunrise <= time {
        Some(Prayer::Sunrise)
    } else if fajr <= time {
        Some(Prayer::Fajr)
    } else {
        None
    }
}

/// The schedule-order successor of the current prayer at `time`; none when
/// no prayer has begun.
pub open spec fn spec_next_from(
    fajr: int,
    sunrise: int,
    dhuhr: int,
    asr: int,
    maghrib: int,
    ishaa: int,
    qiyam: int,
    fajr_tomorrow: int,
    time: int,
) -> Option<Prayer> {
    match spec_current_from(fajr, sunrise, dhuhr, asr, maghrib, ishaa, qiyam, fajr_tomorrow, time) {
        Some(c) => Some(c.spec_successor()),
        None => None,
    }
}

/// Hours and whole minutes until an instant: zero once the instant has
/// passed; otherwise whole hours, and remaining minutes rounded to the
/// nearest (halves up).
pub open spec fn spec_remaining(next_instant: int, time: int) -> (int, int) {
    if next_instant <= time {
        (0int, 0int)
    } else {
        ((next_instant - time) / 3600, ((next_instant - time) % 3600 + 30) / 60)
    }
}

impl PrayerTimes {
    /// The scheduled instant of a schedule position.
    pub closed spec fn spec_time(self, prayer: Prayer) -> int {
        match prayer {
            Prayer::Fajr => self.fajr as int,
            Prayer::Sunrise => self.sunrise as int,
            Prayer::Dhuhr => self.dhuhr as int,
            Prayer::Asr => self.asr as int,
            Prayer::Maghrib => self.maghrib as int,
            Prayer::Ishaa => self.ishaa as int,
            Prayer::Qiyam => self.qiyam as int,
            Prayer::FajrTomorrow => self.fajr_tomorrow as int,
        }
    }

    /// The middle instant of the night.
    pub closed spec fn spec_middle_of_the_night(self) -> int {
        self.middle_of_the_night as int
    }

    /// The date the schedule was computed for.
    pub closed spec fn spec_date(self) -> Date {
        self.date
    }

    /// The coordinate the schedule was computed for.
    pub closed spec fn spec_coordinates(self) -> Coordinates {
        self.coordinates
    }

    /// The parameters the schedule was computed with.
    pub closed spec fn spec_parameters(self) -> Parameters {
        self.parameters
    }

    /// Every instant of the schedule is in operational range.
    pub closed spec fn wf(self) -> bool {
        &&& -OP_LIMIT - 60 <= self.fajr <= OP_LIMIT + 60
        &&& -OP_LIMIT - 60 <= self.sunrise <= OP_LIMIT + 60
        &&& -OP_LIMIT - 60 <= self.dhuhr <= OP_LIMIT + 60
        &&& -OP_LIMIT - 60 <= self.asr <= OP_LIMIT + 60
        &&& -OP_LIMIT - 60 <= self.maghrib <= OP_LIMIT + 60
        &&& -OP_LIMIT - 60 <= self.ishaa <= OP_LIMIT + 60
        &&& -OP_LIMIT - 60 <= self.middle_of_the_night <= OP_LIMIT + 60
        &&& -OP_LIMIT - 60 <= self.qiyam <= OP_LIMIT + 60
        &&& -OP_LIMIT - 60 <= self.fajr_tomorrow <= OP_LIMIT + 60
    }

    /// Assembles the daily schedule.
    ///
    /// The date must be a valid calendar day below the supported year
    /// ceiling; handing an invalid date to schedule construction is a
    /// programmer error, excluded here rather than clamped. Out-of-range
    /// parameters or coordinates and an incoherent solar window are
    /// rejected with the corresponding error; a window whose following
    /// dawn lands before Maghrib leaves no night and is rejected as
    /// degenerate. On success every instant equals its specification.
    pub fn new(date: Date, coordinates: Coordinates, parameters: Parameters, solar: SolarWindow) -> (r:
        Result<PrayerTimes, ScheduleError>)
        requires
            date.valid(),
            date.year <= 9998,
        ensures
            match r {
                Ok(s) => spec_schedule_matches(s, date, coordinates, parameters, solar),
                Err(e) => spec_schedule_error_matches(e, date, coordinates, parameters, solar),
            },
    {
        if !parameters.is_wf() {
            return Err(ScheduleError::InvalidParameters);
        }
        if !coordinates.is_valid() {
            return Err(ScheduleError::InvalidCoordinates);
        }
        if !solar.is_wf() {
            return Err(ScheduleError::InvalidSolarWindow);
        }
        let tomorrow = date.next();
        let night: i64 = solar.tomorrow.sunrise - solar.today.sunset;
        let night_tomorrow: i64 = solar.day_after_sunrise - solar.tomorrow.sunset;

        let fajr = Self::calculate_fajr(parameters, &solar.today, night, coordinates, date);
        let final_fajr = rounded_minute(fajr, parameters.rounding);
        let final_sunrise = rounded_minute(
            adjust_time(solar.today.sunrise, parameters.time_adjustments(Prayer::Sunrise)),
            parameters.rounding,
        );
        let final_dhuhr = rounded_minute(
            adjust_time(solar.today.transit, parameters.time_adjustments(Prayer::Dhuhr)),
            parameters.rounding,
        );
        let asr = match parameters.madhab {
            Mazhab::Shafi => solar.today.asr_shafi,
            Mazhab::Hanafi => solar.today.asr_hanafi,
        };
        let final_asr = rounded_minute(
            adjust_time(asr, parameters.time_adjustments(Prayer::Asr)),
            parameters.rounding,
        );
        let final_maghrib = rounded_minute(
            adjust_time(solar.today.sunset, parameters.time_adjustments(Prayer::Maghrib)),
            parameters.rounding,
        );
        let ishaa = Self::calculate_isha(parameters, &solar.today, night, coordinates, date);
        let final_isha = rounded_minute(ishaa, parameters.rounding);

        let fajr_tomorrow = Self::calculate_fajr(
            parameters,
            &solar.tomorrow,
            night_tomorrow,
            coordinates,
            tomorrow,
        );
        let duration: i64 = fajr_tomorrow - final_maghrib;
        if duration < 0 {
            return Err(ScheduleError::DegenerateNight);
        }
        proof {
            assert(duration / 2 <= duration && 0 <= duration / 2);
            lemma_div_is_ordered(2 * duration, 3 * duration, 3);
            lemma_div_by_multiple(duration as int, 3);
            assert((2 * duration) / 3 <= duration && 0 <= (2 * duration) / 3);
        }
        let middle = rounded_minute(final_maghrib + duration / 2, Rounding::Nearest);
        let qiyam = rounded_minute(final_maghrib + (2 * duration) / 3, Rounding::Nearest);

        Ok(
            PrayerTimes {
                fajr: final_fajr,
                sunrise: final_sunrise,
                dhuhr: final_dhuhr,
                asr: final_asr,
                maghrib: final_maghrib,
                ishaa: final_isha,
                middle_of_the_night: middle,
                qiyam,
                fajr_tomorrow,
                coordinates,
                date,
                parameters,
            },
        )
    }

    /// Dawn for one day's geometry: the raw estimate (or the high-latitude
    /// escape valve), never earlier than the safety bound, with the dawn
    /// adjustment applied.
    fn calculate_fajr(
        parameters: Parameters,
        day: &SolarDay,
        night: i64,
        coordinates: Coordinates,
        date: Date,
    ) -> (r: i64)
        requires
            parameters.wf(),
            coordinates.valid(),
            day.wf(),
            0 < night <= NIGHT_MAX_SECONDS,
            date.valid(),
        ensures
            r == spec_adjusted_fajr(*day, night as int, parameters, coordinates, date),
            -OP_LIMIT <= r <= OP_LIMIT,
    {
        let lat_abs: i64 = if coordinates.latitude < 0 {
            -coordinates.latitude
        } else {
            coordinates.latitude
        };
        let mut fajr: i64 = if parameters.is_moonsighting_committee && lat_abs
            >= MOONSIGHTING_HIGH_LATITUDE {
            day.sunrise - night / 7
        } else {
            day.fajr_raw
        };
        let safe_fajr: i64 = if parameters.is_moonsighting_committee {
            season_adjusted_morning_twilight(
                coordinates.latitude,
                date.day_of_year(),
                date.year,
                day.sunrise,
            )
        } else {
            let portion = parameters.night_portions().morning;
            day.sunrise - night_fraction(portion, night)
        };
        if fajr < safe_fajr {
            fajr = safe_fajr;
        }
        adjust_time(fajr, parameters.time_adjustments(Prayer::Fajr))
    }

    /// Dusk for one day's geometry: a fixed interval after sunset when
    /// dusk is interval-based; otherwise the raw estimate (or the
    /// high-latitude escape valve), never later than the safety bound;
    /// with the dusk adjustment applied.
    fn calculate_isha(
        parameters: Parameters,
        day: &SolarDay,
        night: i64,
        coordinates: Coordinates,
        date: Date,
    ) -> (r: i64)
        requires
            parameters.wf(),
            coordinates.valid(),
            day.wf(),
            0 < night <= NIGHT_MAX_SECONDS,
            date.valid(),
        ensures
            r == spec_adjusted_ishaa(*day, night as int, parameters, coordinates, date),
            -OP_LIMIT <= r <= OP_LIMIT,
    {
        let lat_abs: i64 = if coordinates.latitude < 0 {
            -coordinates.latitude
        } else {
            coordinates.latitude
        };
        let ishaa: i64 = match parameters.ishaa_parameter {
            IshaaParameter::Interval(interval) => day.sunset + (interval as i64) * 60,
            IshaaParameter::Angle(_) => {
                let raw: i64 = if parameters.is_moonsighting_committee && lat_abs
                    >= MOONSIGHTING_HIGH_LATITUDE {
                    day.sunset + night / 7
                } else {
                    day.ishaa_raw
                };
                let safe_isha: i64 = if parameters.is_moonsighting_committee {
                    season_adjusted_evening_twilight(
                        coordinates.latitude,
                        date.day_of_year(),
                        date.year,
                        day.sunset,
                        parameters.twilight,
                    )
                } else {
                    let portion = parameters.night_portions().evening;
                    day.sunset + night_fraction(portion, night)
                };
                if raw > safe_isha {
                    safe_isha
                } else {
                    raw
                }
            },
        };
        adjust_time(ishaa, parameters.time_adjustments(Prayer::Ishaa))
    }

    /// Returns the scheduled instant of a schedule position.
    pub fn time(&self, prayer: Prayer) -> (r: i64)
        ensures
            r == self.spec_time(prayer),
    {
        match prayer {
            Prayer::Fajr => self.fajr,
            Prayer::Sunrise => self.sunrise,
            Prayer::Dhuhr => self.dhuhr,
            Prayer::Asr => self.asr,
            Prayer::Maghrib => self.maghrib,
            Prayer::Ishaa => self.ishaa,
            Prayer::Qiyam => self.qiyam,
            Prayer::FajrTomorrow => self.fajr_tomorrow,
        }
    }

    /// Returns the middle instant of the night.
    pub fn middle_of_the_night(&self) -> (r: i64)
        ensures
            r == self.spec_middle_of_the_night(),
    {
        self.middle_of_the_night
    }

    /// Returns the latest schedule position already begun at `time`, or
    /// nothing when `time` precedes today's Fajr.
    pub fn current_time(&self, time: i64) -> (r: Option<Prayer>)
        ensures
            r == spec_current_from(
                self.spec_time(Prayer::Fajr),
                self.spec_time(Prayer::Sunrise),
                self.spec_time(Prayer::Dhuhr),
                self.spec_time(Prayer::Asr),
                self.spec_time(Prayer::Maghrib),
                self.spec_time(Prayer::Ishaa),
                self.spec_time(Prayer::Qiyam),
                self.spec_time(Prayer::FajrTomorrow),
                time as int,
            ),
    {
        if self.fajr_tomorrow <= time {
            Some(Prayer::FajrTomorrow)
        } else if self.qiyam <= time {
            Some(Prayer::Qiyam)
        } else if self.ishaa <= time {
            Some(Prayer::Ishaa)
        } else if self.maghrib <= time {
            Some(Prayer::Maghrib)
        } else if self.asr <= time {
            Some(Prayer::Asr)
        } else if self.dhuhr <= time {
            Some(Prayer::Dhuhr)
        } else if self.sunrise <= time {
            Some(Prayer::Sunrise)
        } else if self.fajr <= time {
            Some(Prayer::Fajr)
        } else {
            None
        }
    }

    /// Returns the prayer under way at `time`, which must not precede
    /// today's Fajr.
    pub fn current(&self, time: i64) -> (r: Prayer)
        requires
            self.spec_time(Prayer::Fajr) <= time,
        ensures
            Some(r) == spec_current_from(
                self.spec_time(Prayer::Fajr),
                self.spec_time(Prayer::Sunrise),
                self.spec_time(Prayer::Dhuhr),
                self.spec_time(Prayer::Asr),
                self.spec_time(Prayer::Maghrib),
                self.spec_time(Prayer::Ishaa),
                self.spec_time(Prayer::Qiyam),
                self.spec_time(Prayer::FajrTomorrow),
                time as int,
            ),
    {
        if self.fajr_tomorrow <= time {
            Prayer::FajrTomorrow
        } else if self.qiyam <= time {
            Prayer::Qiyam
        } else if self.ishaa <= time {
            Prayer::Ishaa
        } else if self.maghrib <= time {
            Prayer::Maghrib
        } else if self.asr <= time {
            Prayer::Asr
        } else if self.dhuhr <= time {
            Prayer::Dhuhr
        } else if self.sunrise <= time {
            Prayer::Sunrise
        } else {
            Prayer::Fajr
        }
    }

    /// Returns the schedule-order successor of the prayer under way at
    /// `time`; the following day's Fajr is terminal.
    pub fn next(&self, time: i64) -> (r: Prayer)
        requires
            self.spec_time(Prayer::Fajr) <= time,
        ensures
            Some(r) == spec_next_from(
                self.spec_time(Prayer::Fajr),
                self.spec_time(Prayer::Sunrise),
                self.spec_time(Prayer::Dhuhr),
                self.spec_time(Prayer::Asr),
                self.spec_time(Prayer::Maghrib),
                self.spec_time(Prayer::Ishaa),
                self.spec_time(Prayer::Qiyam),
                self.spec_time(Prayer::FajrTomorrow),
                time as int,
            ),
    {
        match self.current(time) {
            Prayer::Fajr => Prayer::Sunrise,
            Prayer::Sunrise => Prayer::Dhuhr,
            Prayer::Dhuhr => Prayer::Asr,
            Prayer::Asr => Prayer::Maghrib,
            Prayer::Maghrib => Prayer::Ishaa,
            Prayer::Ishaa => Prayer::Qiyam,
            Prayer::Qiyam => Prayer::FajrTomorrow,
            _ => Prayer::FajrTomorrow,
        }
    }

    /// Returns the hours and minutes remaining until the next prayer at
    /// `time`: zero once it has passed, otherwise whole hours and minutes
    /// rounded to the nearest.
    pub fn time_remaining(&self, time: i64) -> (r: (u32, u32))
        requires
            self.wf(),
            self.spec_time(Prayer::Fajr) <= time,
        ensures
            spec_next_from(
                self.spec_time(Prayer::Fajr),
                self.spec_time(Prayer::Sunrise),
                self.spec_time(Prayer::Dhuhr),
                self.spec_time(Prayer::Asr),
                self.spec_time(Prayer::Maghrib),
                self.spec_time(Prayer::Ishaa),
                self.spec_time(Prayer::Qiyam),
                self.spec_time(Prayer::FajrTomorrow),
                time as int,
            ) matches Some(nxt) && (r.0 as int, r.1 as int) == spec_remaining(
                self.spec_time(nxt),
                time as int,
            ),
    {
        let next_prayer = self.next(time);
        let next_time = self.time(next_prayer);
        if next_time <= time {
            (0, 0)
        } else {
            let secs: i64 = next_time - time;
            ((secs / 3600) as u32, (((secs % 3600) + 30) / 60) as u32)
        }
    }
}

/// A builder for [`PrayerTimes`]: collects the date, the location, the
/// parameters and the solar window, then calculates. Each setter consumes
/// the builder and returns it with the one input supplied.
#[derive(PartialEq, Debug, Copy, Clone)]
pub struct PrayerSchedule {
    date: Option<Date>,
    coordinates: Option<Coordinates>,
    params: Option<Parameters>,
    solar: Option<SolarWindow>,
}

impl PrayerSchedule {
    /// The date supplied so far.
    pub closed spec fn spec_builder_date(self) -> Option<Date> {
        self.date
    }

    /// The location supplied so far.
    pub closed spec fn spec_builder_coordinates(self) -> Option<Coordinates> {
        self.coordinates
    }

    /// The parameters supplied so far.
    pub closed spec fn spec_builder_params(self) -> Option<Parameters> {
        self.params
    }

    /// The solar window supplied so far.
    pub closed spec fn spec_builder_solar(self) -> Option<SolarWindow> {
        self.solar
    }

    /// Starts with nothing supplied.
    pub fn new() -> (b: PrayerSchedule)
        ensures
            b.spec_builder_date() is None,
            b.spec_builder_coordinates() is None,
            b.spec_builder_params() is None,
            b.spec_builder_solar() is None,
    {
        PrayerSchedule { date: None, coordinates: None, params: None, solar: None }
    }

    /// Supplies the date.
    pub fn on(self, date: Date) -> (b: PrayerSchedule)
        ensures
            b.spec_builder_date() == Some(date),
            b.spec_builder_coordinates() == self.spec_builder_coordinates(),
            b.spec_builder_params() == self.spec_builder_params(),
            b.spec_builder_solar() == self.spec_builder_solar(),
    {
        PrayerSchedule { date: Some(date), ..self }
    }

    /// Supplies the location.
    pub fn for_location(self, location: Coordinates) -> (b: PrayerSchedule)
        ensures
            b.spec_builder_coordinates() == Some(location),
            b.spec_builder_date() == self.spec_builder_date(),
            b.spec_builder_params() == self.spec_builder_params(),
            b.spec_builder_solar() == self.spec_builder_solar(),
    {
        PrayerSchedule { coordinates: Some(location), ..self }
    }

    /// Supplies the parameters.
    pub fn with_configuration(self, params: Parameters) -> (b: PrayerSchedule)
        ensures
            b.spec_builder_params() == Some(params),
            b.spec_builder_date() == self.spec_builder_date(),
            b.spec_builder_coordinates() == self.spec_builder_coordinates(),
            b.spec_builder_solar() == self.spec_builder_solar(),
    {
        PrayerSchedule { params: Some(params), ..self }
    }

    /// Supplies the solar window.
    pub fn with_solar(self, solar: SolarWindow) -> (b: PrayerSchedule)
        ensures
            b.spec_builder_solar() == Some(solar),
            b.spec_builder_date() == self.spec_builder_date(),
            b.spec_builder_coordinates() == self.spec_builder_coordinates(),
            b.spec_builder_params() == self.spec_builder_params(),
    {
        PrayerSchedule { solar: Some(solar), ..self }
    }

    /// Calculates the schedule from the collected inputs: a descriptive
    /// failure when any input is still missing, otherwise exactly what
    /// [`PrayerTimes::new`] returns on them.
    pub fn calculate(&self) -> (r: Result<PrayerTimes, ScheduleError>)
        requires
            self.spec_builder_date() matches Some(d) ==> d.valid() && d.year <= 9998,
        ensures
            match (
                self.spec_builder_date(),
                self.spec_builder_coordinates(),
                self.spec_builder_params(),
                self.spec_builder_solar(),
            ) {
                (Some(d), Some(c), Some(p), Some(w)) => match r {
                    Ok(s) => spec_schedule_matches(s, d, c, p, w),
                    Err(e) => spec_schedule_error_matches(e, d, c, p, w),
                },
                _ => r == Err::<PrayerTimes, ScheduleError>(ScheduleError::MissingInformation),
            },
    {
        match (self.date, self.coordinates, self.params, self.solar) {
            (Some(d), Some(c), Some(p), Some(w)) => PrayerTimes::new(d, c, p, w),
            _ => Err(ScheduleError::MissingInformation),
        }
    }
}

/// Law: before adjustments, Fajr is never earlier than its safety bound,
/// and an angle-based Ishaa is never later than its safety bound — the
/// later bound wins for dawn, the earlier for night, for every day,
/// night length, parameter bundle, coordinate and date.
pub proof fn lemma_safety_bound_directionality(
    day: SolarDay,
    night: int,
    p: Parameters,
    c: Coordinates,
    date: Date,
)
    ensures
        spec_unadjusted_fajr(day, night, p, c, date) >= spec_safe_fajr(day, night, p, c, date),
        p.ishaa_parameter matches IshaaParameter::Angle(_) ==> spec_unadjusted_ishaa(
            day,
            night,
            p,
            c,
            date,
        ) <= spec_safe_ishaa(day, night, p, c, date),
{
}

/// Law: on any prayer, the delta between the adjusted and the unadjusted
/// instant is exactly sixty seconds per minute of the summed user-level
/// and method-level adjustments — nothing else moves an instant before
/// rounding.
pub proof fn lemma_adjustment_linearity(w: SolarWindow, p: Parameters, c: Coordinates, date: Date)
    ensures
        spec_adjusted_fajr(w.today, w.spec_night(), p, c, date) - spec_unadjusted_fajr(
            w.today,
            w.spec_night(),
            p,
            c,
            date,
        ) == 60 * (p.adjustments.fajr + p.method_adjustments.fajr),
        spec_adjusted_sunrise(w, p) - w.today.sunrise == 60 * (p.adjustments.sunrise
            + p.method_adjustments.sunrise),
        spec_adjusted_dhuhr(w, p) - w.today.transit == 60 * (p.adjustments.dhuhr
            + p.method_adjustments.dhuhr),
        spec_adjusted_asr(w, p) - spec_asr_unadjusted(w.today, p.madhab) == 60 * (p.adjustments.asr
            + p.method_adjustments.asr),
        spec_adjusted_maghrib(w, p) - w.today.sunset == 60 * (p.adjustments.maghrib
            + p.method_adjustments.maghrib),
        spec_adjusted_ishaa(w.today, w.spec_night(), p, c, date) - spec_unadjusted_ishaa(
            w.today,
            w.spec_night(),
            p,
            c,
            date,
        ) == 60 * (p.adjustments.ishaa + p.method_adjustments.ishaa),
{
}

/// Law: for identical inputs, Asr under the double-shadow mazhab is never
/// earlier than Asr under the single-shadow one.
pub proof fn lemma_asr_denomination_monotone(w: SolarWindow, p1: Parameters, p2: Parameters)
    requires
        w.wf(),
        p1.madhab == Mazhab::Shafi,
        p2.madhab == Mazhab::Hanafi,
        p1.adjustments == p2.adjustments,
        p1.method_adjustments == p2.method_adjustments,
        p1.rounding == p2.rounding,
    ensures
        spec_asr_time(w, p1) <= spec_asr_time(w, p2),
{
    lemma_rounding_monotone(p1.rounding, spec_adjusted_asr(w, p1), spec_adjusted_asr(w, p2));
}

/// Law: under the moonsighting-committee method at or above 55° latitude,
/// north or south, the raw dawn and dusk estimates are sunrise minus a
/// seventh of the night and sunset plus a seventh of the night — the
/// configured depression crossings are set aside entirely.
pub proof fn lemma_moonsighting_escape_valve(day: SolarDay, night: int, p: Parameters, c: Coordinates)
    requires
        p.is_moonsighting_committee,
        c.spec_abs_latitude() >= MOONSIGHTING_HIGH_LATITUDE,
    ensures
        spec_raw_fajr(day, night, p, c) == day.sunrise - night / 7,
        spec_raw_ishaa(day, night, p, c) == day.sunset + night / 7,
        day.fajr_raw != day.sunrise - night / 7 ==> spec_raw_fajr(day, night, p, c)
            != day.fajr_raw,
        day.ishaa_raw != day.sunset + night / 7 ==> spec_raw_ishaa(day, night, p, c)
            != day.ishaa_raw,
{
}

/// Instants at least a minute apart before rounding stay strictly ordered
/// after rounding under any one policy.
proof fn lemma_round_separated(rounding: Rounding, x: int, y: int)
    requires
        x + 60 <= y,
    ensures
        spec_round(rounding, x) < spec_round(rounding, y),
{
    lemma_rounding_close(rounding, x);
    lemma_rounding_close(rounding, y);
}

/// Law: the schedule is strictly increasing — Fajr before Sunrise before
/// Dhuhr before Asr before Maghrib before Ishaa before Qiyam before the
/// following day's Fajr, with the middle of the night strictly between
/// Maghrib and Qiyam — whenever the adjusted instants are separated by at
/// least a minute (a minute and a half ahead of Qiyam) and at least 400
/// seconds of night remain, so that rounding cannot fold two positions
/// onto the same minute.
pub proof fn lemma_schedule_ordering(w: SolarWindow, p: Parameters, c: Coordinates, date: Date)
    requires
        spec_adjusted_fajr(w.today, w.spec_night(), p, c, date) + 60 <= spec_adjusted_sunrise(
            w,
            p,
        ),
        spec_adjusted_sunrise(w, p) + 60 <= spec_adjusted_dhuhr(w, p),
        spec_adjusted_dhuhr(w, p) + 60 <= spec_adjusted_asr(w, p),
        spec_adjusted_asr(w, p) + 60 <= spec_adjusted_maghrib(w, p),
        spec_adjusted_maghrib(w, p) + 60 <= spec_adjusted_ishaa(
            w.today,
            w.spec_night(),
            p,
            c,
            date,
        ),
        spec_adjusted_ishaa(w.today, w.spec_night(), p, c, date) + 90 <= spec_maghrib_time(w, p) + (
        2 * spec_night_duration(w, p, c, date)) / 3,
        spec_night_duration(w, p, c, date) >= 400,
    ensures
        spec_fajr_time(w, p, c, date) < spec_sunrise_time(w, p),
        spec_sunrise_time(w, p) < spec_dhuhr_time(w, p),
        spec_dhuhr_time(w, p) < spec_asr_time(w, p),
        spec_asr_time(w, p) < spec_maghrib_time(w, p),
        spec_maghrib_time(w, p) < spec_ishaa_time(w, p, c, date),
        spec_ishaa_time(w, p, c, date) < spec_qiyam_time(w, p, c, date),
        spec_qiyam_time(w, p, c, date) < spec_fajr_tomorrow_time(w, p, c, date),
        spec_maghrib_time(w, p) < spec_middle_of_night_time(w, p, c, date),
        spec_middle_of_night_time(w, p, c, date) < spec_qiyam_time(w, p, c, date),
{
    let night = w.spec_night();
    let pre_fajr = spec_adjusted_fajr(w.today, night, p, c, date);
    let pre_ishaa = spec_adjusted_ishaa(w.today, night, p, c, date);
    lemma_round_separated(p.rounding, pre_fajr, spec_adjusted_sunrise(w, p));
    lemma_round_separated(p.rounding, spec_adjusted_sunrise(w, p), spec_adjusted_dhuhr(w, p));
    lemma_round_separated(p.rounding, spec_adjusted_dhuhr(w, p), spec_adjusted_asr(w, p));
    lemma_round_separated(p.rounding, spec_adjusted_asr(w, p), spec_adjusted_maghrib(w, p));
    lemma_round_separated(p.rounding, spec_adjusted_maghrib(w, p), pre_ishaa);

    let maghrib_final = spec_maghrib_time(w, p);
    let duration = spec_night_duration(w, p, c, date);
    let qiyam_pre = maghrib_final + (2 * duration) / 3;
    lemma_rounding_close(p.rounding, pre_ishaa);
    lemma_rounding_close(Rounding::Nearest, qiyam_pre);

    lemma_fundamental_div_mod(2 * duration, 3);
    assert(3 * ((2 * duration) / 3) == 2 * duration - (2 * duration) % 3);
    assert(duration - (2 * duration) / 3 >= 40);

    let middle_pre = maghrib_final + duration / 2;
    lemma_rounding_close(Rounding::Nearest, middle_pre);
    lemma_fundamental_div_mod(duration, 2);
    assert(2 * (duration / 2) == duration - duration % 2);
    assert(duration / 2 >= 199);
    assert((2 * duration) / 3 - duration / 2 >= 66);
}

} // verus!
