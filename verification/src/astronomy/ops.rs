use vstd::prelude::*;
use vstd::arithmetic::div_mod::{
    lemma_div_is_ordered, lemma_div_multiples_vanish_fancy, lemma_fundamental_div_mod,
    lemma_mod_multiples_vanish,
};
use crate::models::adjustments::MAX_ADJUSTMENT_MINUTES;
use crate::models::date::spec_is_leap_year;
use crate::models::rounding::Rounding;
use crate::models::twilight::Twilight;
use crate::astronomy::unit::LATITUDE_LIMIT;

verus! {

/// Largest timestamp magnitude, in seconds since the Unix epoch, accepted
/// for a solar instant; roughly twelve thousand years either way.
pub const TS_LIMIT: i64 = 400_000_000_000;

/// Largest timestamp magnitude accepted by the minute operations: a solar
/// instant plus the worst-case adjustment, night portion and correction
/// still fits with room to spare.
pub const OP_LIMIT: i64 = 500_000_000_000;

/// Denominator of the fixed-point twilight-node values: coefficient
/// hundredths, times the 55-degree reference latitude, times nano-degrees.
pub const NODE_DEN: i128 = 5_500_000_000_000;

/// Upper bound of a twilight-node numerator over [`NODE_DEN`].
pub const NODE_MAX: i128 = 1_300_000_000_000_000;

/// An instant rounded to whole minutes under the given policy: the nearest
/// minute (half rounds up), the next minute (always advancing, even from a
/// minute boundary), or the instant unchanged.
pub open spec fn spec_round(rounding: Rounding, t: int) -> int {
    let s = t % 60;
    match rounding {
        Rounding::Nearest => if s >= 30 {
            t - s + 60
        } else {
            t - s
        },
        Rounding::Ceil => t - s + 60,
        Rounding::Unrounded => t,
    }
}

/// The rounded instant as a whole quotient: rounding to the nearest or the
/// next minute is division with an offset.
proof fn lemma_round_quotient_form(t: int)
    ensures
        spec_round(Rounding::Nearest, t) == 60 * ((t + 30) / 60),
        spec_round(Rounding::Ceil, t) == 60 * ((t + 60) / 60),
{
    let s = t % 60;
    lemma_fundamental_div_mod(t, 60);
    let q = t / 60;
    if s >= 30 {
        assert(t + 30 == 60 * (q + 1) + (s - 30));
        lemma_div_multiples_vanish_fancy(q + 1, s - 30, 60);
    } else {
        assert(t + 30 == 60 * q + (s + 30));
        lemma_div_multiples_vanish_fancy(q, s + 30, 60);
    }
    assert(t + 60 == 60 * (q + 1) + s);
    lemma_div_multiples_vanish_fancy(q + 1, s, 60);
}

/// Rounding to the nearest minute, or leaving an instant unrounded, is
/// idempotent: a second application leaves the instant unchanged. The
/// next-minute policy is excluded: it advances a full minute each time.
pub proof fn lemma_rounding_idempotent(rounding: Rounding, t: int)
    requires
        rounding != Rounding::Ceil,
    ensures
        spec_round(rounding, spec_round(rounding, t)) == spec_round(rounding, t),
{
    match rounding {
        Rounding::Unrounded => {},
        _ => {
            lemma_fundamental_div_mod(t, 60);
            let q = t / 60;
            let r = spec_round(rounding, t);
            if r == 60 * q {
                lemma_mod_multiples_vanish(q, 0, 60);
            } else {
                assert(r == 60 * (q + 1));
                lemma_mod_multiples_vanish(q + 1, 0, 60);
            }
        },
    }
}

/// The next-minute policy moves every instant forward by a whole minute's
/// worth: applying it twice lands exactly one minute past applying it
/// once.
pub proof fn lemma_ceil_advances(t: int)
    ensures
        t < spec_round(Rounding::Ceil, t) <= t + 60,
        spec_round(Rounding::Ceil, spec_round(Rounding::Ceil, t)) == spec_round(Rounding::Ceil, t)
            + 60,
{
    lemma_fundamental_div_mod(t, 60);
    let q = t / 60;
    let r = spec_round(Rounding::Ceil, t);
    assert(r == 60 * (q + 1));
    lemma_mod_multiples_vanish(q + 1, 0, 60);
}

/// Rounding is monotone: it never swaps the order of two instants.
pub proof fn lemma_rounding_monotone(rounding: Rounding, a: int, b: int)
    requires
        a <= b,
    ensures
        spec_round(rounding, a) <= spec_round(rounding, b),
{
    lemma_round_quotient_form(a);
    lemma_round_quotient_form(b);
    match rounding {
        Rounding::Nearest => {
            lemma_div_is_ordered(a + 30, b + 30, 60);
        },
        Rounding::Ceil => {
            lemma_div_is_ordered(a + 60, b + 60, 60);
        },
        Rounding::Unrounded => {},
    }
}

/// Rounding moves an instant by at most a minute: never back by thirty
/// seconds or more, never forward past the next minute boundary.
pub proof fn lemma_rounding_close(rounding: Rounding, t: int)
    ensures
        t - 30 < spec_round(rounding, t) <= t + 60,
        rounding == Rounding::Nearest ==> spec_round(rounding, t) <= t + 30,
        rounding == Rounding::Ceil ==> t < spec_round(rounding, t),
{
}

/// Rounds a timestamp to whole minutes under the given policy.
pub fn rounded_minute(ts: i64, rounding: Rounding) -> (r: i64)
    requires
        -OP_LIMIT <= ts <= OP_LIMIT,
    ensures
        r == spec_round(rounding, ts as int),
        -OP_LIMIT - 60 <= r <= OP_LIMIT + 60,
{
    // Shifting by a positive multiple of sixty leaves the sub-minute
    // seconds unchanged and lets them be read off an unsigned value.
    let shifted: i64 = ts + 600_000_000_000;
    let s: i64 = ((shifted as u64) % 60) as i64;
    proof {
        lemma_mod_multiples_vanish(10_000_000_000, ts as int, 60);
        assert(s == ts as int % 60);
    }
    match rounding {
        Rounding::Nearest => if s >= 30 {
            ts - s + 60
        } else {
            ts - s
        },
        Rounding::Ceil => ts - s + 60,
        Rounding::Unrounded => ts,
    }
}

/// Shifts a timestamp by a whole number of minutes.
pub fn adjust_time(ts: i64, minutes: i64) -> (r: i64)
    requires
        -OP_LIMIT <= ts <= OP_LIMIT,
        -MAX_ADJUSTMENT_MINUTES * 2 <= minutes <= MAX_ADJUSTMENT_MINUTES * 2,
    ensures
        r == ts + minutes * 60,
{
    ts + minutes * 60
}

/// Magnitude of an integer.
pub open spec fn spec_abs(x: int) -> int {
    if x < 0 {
        -x
    } else {
        x
    }
}

/// Length of the year in days.
pub open spec fn spec_days_in_year(year: int) -> int {
    if spec_is_leap_year(year) {
        366
    } else {
        365
    }
}

/// Days elapsed since the solstice that opens the local winter: the
/// December solstice in the northern hemisphere (taken as ten days before
/// new year), the June solstice in the southern.
pub open spec fn spec_days_since_solstice(day_of_year: int, year: int, latitude: int) -> int {
    let diy = spec_days_in_year(year);
    if latitude >= 0 {
        let shifted = day_of_year + 10;
        if shifted >= diy {
            shifted - diy
        } else {
            shifted
        }
    } else {
        let southern_offset = if spec_is_leap_year(year) {
            173int
        } else {
            172int
        };
        if day_of_year >= southern_offset {
            day_of_year - southern_offset
        } else {
            day_of_year + diy - southern_offset
        }
    }
}

/// A twilight-curve node in minutes, as a numerator over [`NODE_DEN`]: the
/// base minute count plus `coefficient` hundredths of a minute per degree
/// of latitude, scaled over the 55-degree reference latitude.
pub open spec fn spec_node(base: int, coefficient: int, lat_abs: int) -> int {
    base * (NODE_DEN as int) + coefficient * lat_abs
}

/// Seconds of twilight adjustment on one linear segment of the seasonal
/// curve: the interpolation from node `x` to node `y`, `t` days into a
/// segment of `p` days, converted from minutes to seconds and rounded to
/// the nearest second (halves up).
pub open spec fn spec_segment_seconds(x: int, y: int, t: int, p: int) -> int {
    (120 * (x * p + (y - x) * t) + (NODE_DEN as int) * p) / (2 * (NODE_DEN as int) * p)
}

/// Seconds of twilight adjustment for a day of the solstice-anchored year:
/// the seasonal curve runs through its four nodes over segments of 91, 46,
/// 46, 46, 46 and 91 days.
pub open spec fn spec_piecewise_seconds(an: int, bn: int, cn: int, dn: int, dyy: int) -> int {
    if dyy < 91 {
        spec_segment_seconds(an, bn, dyy, 91)
    } else if dyy < 137 {
        spec_segment_seconds(bn, cn, dyy - 91, 46)
    } else if dyy < 183 {
        spec_segment_seconds(cn, dn, dyy - 137, 46)
    } else if dyy < 229 {
        spec_segment_seconds(dn, cn, dyy - 183, 46)
    } else if dyy < 275 {
        spec_segment_seconds(cn, bn, dyy - 229, 46)
    } else {
        spec_segment_seconds(bn, an, dyy - 275, 91)
    }
}

/// Seconds by which the seasonal correction pulls dawn ahead of sunrise.
pub open spec fn spec_morning_adjustment_seconds(lat_abs: int, dyy: int) -> int {
    spec_piecewise_seconds(
        spec_node(75, 2865, lat_abs),
        spec_node(75, 1944, lat_abs),
        spec_node(75, 3274, lat_abs),
        spec_node(75, 4810, lat_abs),
        dyy,
    )
}

/// Seconds by which the seasonal correction pushes dusk past sunset, per
/// twilight variant.
pub open spec fn spec_evening_adjustment_seconds(lat_abs: int, dyy: int, twilight: Twilight) -> int {
    match twilight {
        Twilight::General => spec_piecewise_seconds(
            spec_node(75, 2560, lat_abs),
            spec_node(75, 205, lat_abs),
            spec_node(75, -921, lat_abs),
            spec_node(75, 614, lat_abs),
            dyy,
        ),
        Twilight::Red => spec_piecewise_seconds(
            spec_node(62, 1740, lat_abs),
            spec_node(62, -716, lat_abs),
            spec_node(62, 512, lat_abs),
            spec_node(62, 1944, lat_abs),
            dyy,
        ),
        Twilight::White => spec_piecewise_seconds(
            spec_node(75, 2560, lat_abs),
            spec_node(75, 716, lat_abs),
            spec_node(75, 3684, lat_abs),
            spec_node(75, 8184, lat_abs),
            dyy,
        ),
    }
}

/// The seasonal safety bound for dawn: sunrise pulled back by the morning
/// adjustment.
pub open spec fn spec_morning_twilight(latitude: int, day_of_year: int, year: int, sunrise: int) -> int {
    sunrise - spec_morning_adjustment_seconds(
        spec_abs(latitude),
        spec_days_since_solstice(day_of_year, year, latitude),
    )
}

/// The seasonal safety bound for dusk: sunset pushed out by the evening
/// adjustment, then snapped to the nearest minute.
pub open spec fn spec_evening_twilight(
    latitude: int,
    day_of_year: int,
    year: int,
    sunset: int,
    twilight: Twilight,
) -> int {
    spec_round(
        Rounding::Nearest,
        sunset + spec_evening_adjustment_seconds(
            spec_abs(latitude),
            spec_days_since_solstice(day_of_year, year, latitude),
            twilight,
        ),
    )
}

/// Returns the number of days since the solstice that opens the local
/// winter.
pub fn days_since_solstice(day_of_year: u32, year: i32, latitude: i64) -> (r: u32)
    requires
        1 <= year <= 9999,
        1 <= day_of_year <= 366,
        day_of_year as int <= spec_days_in_year(year as int),
    ensures
        r == spec_days_since_solstice(day_of_year as int, year as int, latitude as int),
        r <= 365,
{
    let leap = crate::models::date::is_leap_year(year);
    let days_in_year: u32 = if leap {
        366
    } else {
        365
    };
    if latitude >= 0 {
        let shifted = day_of_year + 10;
        if shifted >= days_in_year {
            shifted - days_in_year
        } else {
            shifted
        }
    } else {
        let southern_offset: u32 = if leap {
            173
        } else {
            172
        };
        if day_of_year >= southern_offset {
            day_of_year - southern_offset
        } else {
            day_of_year + days_in_year - southern_offset
        }
    }
}

/// Builds a twilight-curve node numerator for the given base minutes,
/// coefficient hundredths and latitude magnitude.
fn twilight_node(base: i64, coefficient: i64, lat_abs: i64) -> (n: i128)
    requires
        base == 62 || base == 75,
        -1000 <= coefficient <= 8200,
        0 <= lat_abs <= LATITUDE_LIMIT,
    ensures
        n == spec_node(base as int, coefficient as int, lat_abs as int),
        0 < n <= NODE_MAX,
{
    proof {
        assert(-1000 * (LATITUDE_LIMIT as int) <= (coefficient as int) * (lat_abs as int) <= 8200
            * (LATITUDE_LIMIT as int)) by (nonlinear_arith)
            requires
                -1000 <= coefficient <= 8200,
                0 <= lat_abs <= LATITUDE_LIMIT,
        ;
    }
    (base as i128) * NODE_DEN + (coefficient as i128) * (lat_abs as i128)
}

/// Seconds of adjustment on one linear segment of the seasonal curve.
fn segment_seconds(x: i128, y: i128, t: i128, p: i128) -> (s: i64)
    requires
        0 < x <= NODE_MAX,
        0 < y <= NODE_MAX,
        0 <= t < p,
        p == 46 || p == 91,
    ensures
        s == spec_segment_seconds(x as int, y as int, t as int, p as int),
        0 <= s <= 15000,
{
    proof {
        assert(0 < x * p <= NODE_MAX * 91 && -NODE_MAX * 91 <= (y - x) * t <= NODE_MAX * 91 && 0
            <= x * p + (y - x) * t <= NODE_MAX * p) by (nonlinear_arith)
            requires
                0 < x <= NODE_MAX,
                0 < y <= NODE_MAX,
                0 <= t < p,
                p == 46 || p == 91,
        ;
    }
    let num: i128 = x * p + (y - x) * t;
    let den: i128 = NODE_DEN * p;
    let sec: i128 = (120 * num + den) / (2 * den);
    proof {
        assert(120 * num + den <= (120 * NODE_MAX + NODE_DEN) * p) by (nonlinear_arith)
            requires
                0 <= num <= NODE_MAX * p,
                den == NODE_DEN * p,
                p == 46 || p == 91,
        ;
        lemma_div_is_ordered(120 * num + den, (120 * (NODE_MAX as int) + NODE_DEN) * (p as int), 2
            * (den as int));
        if p == 46 {
            assert((120 * (NODE_MAX as int) + NODE_DEN) * 46 / (2 * ((NODE_DEN as int) * 46))
                <= 15000);
        } else {
            assert((120 * (NODE_MAX as int) + NODE_DEN) * 91 / (2 * ((NODE_DEN as int) * 91))
                <= 15000);
        }
    }
    sec as i64
}

/// Seconds of twilight adjustment for a day of the solstice-anchored year.
fn piecewise_seconds(an: i128, bn: i128, cn: i128, dn: i128, dyy: u32) -> (s: i64)
    requires
        0 < an <= NODE_MAX,
        0 < bn <= NODE_MAX,
        0 < cn <= NODE_MAX,
        0 < dn <= NODE_MAX,
        dyy <= 365,
    ensures
        s == spec_piecewise_seconds(an as int, bn as int, cn as int, dn as int, dyy as int),
        0 <= s <= 15000,
{
    let t = dyy as i128;
    if dyy < 91 {
        segment_seconds(an, bn, t, 91)
    } else if dyy < 137 {
        segment_seconds(bn, cn, t - 91, 46)
    } else if dyy < 183 {
        segment_seconds(cn, dn, t - 137, 46)
    } else if dyy < 229 {
        segment_seconds(dn, cn, t - 183, 46)
    } else if dyy < 275 {
        segment_seconds(cn, bn, t - 229, 46)
    } else {
        segment_seconds(bn, an, t - 275, 91)
    }
}

/// Empirical seasonal safety bound for dawn under the
/// moonsighting-committee method: sunrise, pulled back by a number of
/// minutes that depends on the latitude and on the position of the day
/// between the solstices.
pub fn season_adjusted_morning_twilight(
    latitude: i64,
    day_of_year: u32,
    year: i32,
    sunrise: i64,
) -> (r: i64)
    requires
        -LATITUDE_LIMIT <= latitude <= LATITUDE_LIMIT,
        1 <= year <= 9999,
        1 <= day_of_year <= 366,
        day_of_year as int <= spec_days_in_year(year as int),
        -TS_LIMIT <= sunrise <= TS_LIMIT,
    ensures
        r == spec_morning_twilight(latitude as int, day_of_year as int, year as int, sunrise as int),
        sunrise - 15000 <= r <= sunrise,
{
    let lat_abs: i64 = if latitude < 0 {
        -latitude
    } else {
        latitude
    };
    let dss = days_since_solstice(day_of_year, year, latitude);
    let an = twilight_node(75, 2865, lat_abs);
    let bn = twilight_node(75, 1944, lat_abs);
    let cn = twilight_node(75, 3274, lat_abs);
    let dn = twilight_node(75, 4810, lat_abs);
    let secs = piecewise_seconds(an, bn, cn, dn, dss);
    sunrise - secs
}

/// Empirical seasonal safety bound for dusk under the
/// moonsighting-committee method: sunset, pushed out by a number of
/// minutes that depends on the latitude, the position of the day between
/// the solstices and the configured twilight variant, snapped to the
/// nearest minute.
pub fn season_adjusted_evening_twilight(
    latitude: i64,
    day_of_year: u32,
    year: i32,
    sunset: i64,
    twilight: Twilight,
) -> (r: i64)
    requires
        -LATITUDE_LIMIT <= latitude <= LATITUDE_LIMIT,
        1 <= year <= 9999,
        1 <= day_of_year <= 366,
        day_of_year as int <= spec_days_in_year(year as int),
        -TS_LIMIT <= sunset <= TS_LIMIT,
    ensures
        r == spec_evening_twilight(
            latitude as int,
            day_of_year as int,
            year as int,
            sunset as int,
            twilight,
        ),
        sunset - 30 <= r <= sunset + 15030,
{
    let lat_abs: i64 = if latitude < 0 {
        -latitude
    } else {
        latitude
    };
    let dss = days_since_solstice(day_of_year, year, latitude);
    let (an, bn, cn, dn) = match twilight {
        Twilight::General => (
            twilight_node(75, 2560, lat_abs),
            twilight_node(75, 205, lat_abs),
            twilight_node(75, -921, lat_abs),
            twilight_node(75, 614, lat_abs),
        ),
        Twilight::Red => (
            twilight_node(62, 1740, lat_abs),
            twilight_node(62, -716, lat_abs),
            twilight_node(62, 512, lat_abs),
            twilight_node(62, 1944, lat_abs),
        ),
        Twilight::White => (
            twilight_node(75, 2560, lat_abs),
            twilight_node(75, 716, lat_abs),
            twilight_node(75, 3684, lat_abs),
            twilight_node(75, 8184, lat_abs),
        ),
    };
    let secs = piecewise_seconds(an, bn, cn, dn, dss);
    proof {
        lemma_rounding_close(Rounding::Nearest, sunset + secs);
    }
    rounded_minute(sunset + secs, Rounding::Nearest)
}

} // verus!
