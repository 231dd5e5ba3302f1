//! End-to-end schedules for known places and dates.
//!
//! The library works from solar instants handed in as plain timestamps, so
//! these tests carry their own low-precision solar ephemeris (the standard
//! Meeus formulas in floating point) as scaffolding, compute the solar
//! window for each scenario, and hold the assembled schedule to the known
//! clock times.

use azan::{
    Adjustment, Configuration, Coordinates, Date, HighLatitudeRule, IshaaParameter, Mazhab, Method,
    Parameters, Prayer, PrayerSchedule, PrayerTimes, SolarDay, SolarWindow,
};
use chrono::{Datelike, FixedOffset, NaiveDate, TimeZone, Utc};

fn normalized_to_scale(value: f64, max: f64) -> f64 {
    value - max * (value / max).floor()
}

fn unwound(value: f64) -> f64 {
    normalized_to_scale(value, 360.0)
}

fn quadrant_shifted(angle: f64) -> f64 {
    if (-180.0..=180.0).contains(&angle) {
        angle
    } else {
        angle - 360.0 * (angle / 360.0).round()
    }
}

fn julian_day(year: i32, month: i32, day: i32) -> f64 {
    let y = if month > 2 { year } else { year - 1 };
    let m = if month > 2 { month } else { month + 12 };
    let a = y / 100;
    let b = 2 - a + a / 4;
    let i0 = (365.25 * (y as f64 + 4716.0)).floor();
    let i1 = (30.6001 * (m as f64 + 1.0)).floor();
    i0 + i1 + day as f64 + b as f64 - 1524.5
}

fn mean_solar_longitude(t: f64) -> f64 {
    unwound(280.4664567 + 36000.76983 * t + 0.0003032 * t * t)
}

fn mean_lunar_longitude(t: f64) -> f64 {
    unwound(218.3165 + 481267.8813 * t)
}

fn ascending_lunar_node_longitude(t: f64) -> f64 {
    unwound(125.04452 - 1934.136261 * t + 0.0020708 * t * t + t * t * t / 450000.0)
}

fn mean_solar_anomaly(t: f64) -> f64 {
    unwound(357.52911 + 35999.05029 * t - 0.0001537 * t * t)
}

fn solar_equation_of_the_center(t: f64, mean_anomaly: f64) -> f64 {
    let mrad = mean_anomaly.to_radians();
    (1.914602 - 0.004817 * t - 0.000014 * t * t) * mrad.sin()
        + (0.019993 - 0.000101 * t) * (2.0 * mrad).sin()
        + 0.000289 * (3.0 * mrad).sin()
}

fn apparent_solar_longitude(t: f64, mean_longitude: f64) -> f64 {
    let longitude = mean_longitude + solar_equation_of_the_center(t, mean_solar_anomaly(t));
    let omega = 125.04 - 1934.136 * t;
    unwound(longitude - 0.00569 - 0.00478 * omega.to_radians().sin())
}

fn mean_obliquity_of_the_ecliptic(t: f64) -> f64 {
    23.439291 - 0.013004167 * t - 0.0000001639 * t * t + 0.0000005036 * t * t * t
}

fn apparent_obliquity_of_the_ecliptic(t: f64, mean_obliquity: f64) -> f64 {
    let o = 125.04 - 1934.136 * t;
    mean_obliquity + 0.00256 * o.to_radians().cos()
}

fn mean_sidereal_time(t: f64) -> f64 {
    let jd = t * 36525.0 + 2451545.0;
    unwound(
        280.46061837 + 360.98564736629 * (jd - 2451545.0) + 0.000387933 * t * t
            - t * t * t / 38710000.0,
    )
}

fn nutation_in_longitude(l0: f64, lp: f64, omega: f64) -> f64 {
    (-17.2 / 3600.0) * omega.to_radians().sin()
        - (1.32 / 3600.0) * (2.0 * l0.to_radians()).sin()
        - (0.23 / 3600.0) * (2.0 * lp.to_radians()).sin()
        + (0.21 / 3600.0) * (2.0 * omega.to_radians()).sin()
}

fn nutation_in_obliquity(l0: f64, lp: f64, omega: f64) -> f64 {
    (9.2 / 3600.0) * omega.to_radians().cos() + (0.57 / 3600.0) * (2.0 * l0.to_radians()).cos()
        + (0.10 / 3600.0) * (2.0 * lp.to_radians()).cos()
        - (0.09 / 3600.0) * (2.0 * omega.to_radians()).cos()
}

fn altitude_of_celestial_body(observer_latitude: f64, declination: f64, local_hour_angle: f64) -> f64 {
    let term1 = observer_latitude.to_radians().sin() * declination.to_radians().sin();
    let term2 = observer_latitude.to_radians().cos() * declination.to_radians().cos()
        * local_hour_angle.to_radians().cos();
    (term1 + term2).asin().to_degrees()
}

fn interpolate(y2: f64, y1: f64, y3: f64, n: f64) -> f64 {
    let a = y2 - y1;
    let b = y3 - y2;
    let c = b - a;
    y2 + (n / 2.0) * (a + b + n * c)
}

fn interpolate_angles(y2: f64, y1: f64, y3: f64, n: f64) -> f64 {
    let a = unwound(y2 - y1);
    let b = unwound(y3 - y2);
    let c = b - a;
    y2 + (n / 2.0) * (a + b + n * c)
}

#[derive(Copy, Clone)]
struct SolarCoordinates {
    declination: f64,
    right_ascension: f64,
    apparent_sidereal_time: f64,
}

fn solar_coordinates(julian_day: f64) -> SolarCoordinates {
    let t = (julian_day - 2451545.0) / 36525.0;
    let l0 = mean_solar_longitude(t);
    let lp = mean_lunar_longitude(t);
    let omega = ascending_lunar_node_longitude(t);
    let lambda = apparent_solar_longitude(t, l0).to_radians();
    let theta0 = mean_sidereal_time(t);
    let dpsi = nutation_in_longitude(l0, lp, omega);
    let deps = nutation_in_obliquity(l0, lp, omega);
    let eps0 = mean_obliquity_of_the_ecliptic(t);
    let eps_app = apparent_obliquity_of_the_ecliptic(t, eps0).to_radians();
    SolarCoordinates {
        declination: (eps_app.sin() * lambda.sin()).asin().to_degrees(),
        right_ascension: unwound((eps_app.cos() * lambda.sin()).atan2(lambda.cos()).to_degrees()),
        apparent_sidereal_time: theta0
            + (dpsi * 3600.0 * (eps0 + deps).to_radians().cos()) / 3600.0,
    }
}

fn approximate_transit(longitude: f64, sidereal_time: f64, right_ascension: f64) -> f64 {
    let lw = -longitude;
    normalized_to_scale((right_ascension + lw - sidereal_time) / 360.0, 1.0)
}

fn corrected_transit(
    m0: f64,
    longitude: f64,
    sidereal_time: f64,
    right_ascension: f64,
    previous_right_ascension: f64,
    next_right_ascension: f64,
) -> f64 {
    let lw = -longitude;
    let theta = unwound(sidereal_time + 360.985647 * m0);
    let a = unwound(interpolate_angles(
        right_ascension,
        previous_right_ascension,
        next_right_ascension,
        m0,
    ));
    let h = quadrant_shifted(theta - lw - a);
    (m0 + h / -360.0) * 24.0
}

struct Ephemeris {
    latitude: f64,
    longitude: f64,
    solar: SolarCoordinates,
    previous: SolarCoordinates,
    next: SolarCoordinates,
    approx_transit: f64,
    transit: f64,
    sunrise: f64,
    sunset: f64,
}

fn corrected_hour_angle(eph: &Ephemeris, angle: f64, after_transit: bool) -> f64 {
    let lw = -eph.longitude;
    let term1 = angle.to_radians().sin()
        - eph.latitude.to_radians().sin() * eph.solar.declination.to_radians().sin();
    let term2 = eph.latitude.to_radians().cos() * eph.solar.declination.to_radians().cos();
    let h0 = (term1 / term2).acos().to_degrees();
    let m = if after_transit {
        eph.approx_transit + h0 / 360.0
    } else {
        eph.approx_transit - h0 / 360.0
    };
    let theta = unwound(eph.solar.apparent_sidereal_time + 360.985647 * m);
    let a = unwound(interpolate_angles(
        eph.solar.right_ascension,
        eph.previous.right_ascension,
        eph.next.right_ascension,
        m,
    ));
    let delta = interpolate(
        eph.solar.declination,
        eph.previous.declination,
        eph.next.declination,
        m,
    );
    let h = theta - lw - a;
    let altitude = altitude_of_celestial_body(eph.latitude, delta, h);
    let dm = (altitude - angle) / (360.0 * delta.to_radians().cos() * eph.latitude.to_radians().cos()
        * h.to_radians().sin());
    (m + dm) * 24.0
}

fn ephemeris(date: NaiveDate, latitude: f64, longitude: f64) -> Ephemeris {
    let jd = julian_day(date.year(), date.month() as i32, date.day() as i32);
    let solar = solar_coordinates(jd);
    let previous = solar_coordinates(jd - 1.0);
    let next = solar_coordinates(jd + 1.0);
    let approx_transit =
        approximate_transit(longitude, solar.apparent_sidereal_time, solar.right_ascension);
    let mut eph = Ephemeris {
        latitude,
        longitude,
        solar,
        previous,
        next,
        approx_transit,
        transit: 0.0,
        sunrise: 0.0,
        sunset: 0.0,
    };
    let solar_altitude = -50.0 / 60.0;
    eph.transit = corrected_transit(
        approx_transit,
        longitude,
        solar.apparent_sidereal_time,
        solar.right_ascension,
        previous.right_ascension,
        next.right_ascension,
    );
    eph.sunrise = corrected_hour_angle(&eph, solar_altitude, false);
    eph.sunset = corrected_hour_angle(&eph, solar_altitude, true);
    eph
}

fn afternoon(eph: &Ephemeris, shadow_length: f64) -> f64 {
    let tangent = (eph.latitude - eph.solar.declination).abs();
    let inverse = shadow_length + tangent.to_radians().tan();
    let angle = (1.0 / inverse).atan().to_degrees();
    corrected_hour_angle(eph, angle, true)
}

fn timestamp_at(midnight: i64, hours: f64) -> i64 {
    assert!(hours.is_finite(), "no solar crossing for this input");
    let h = hours.floor();
    let minutes = (hours - h) * 60.0;
    let m = minutes.floor();
    let s = ((minutes - m) * 60.0).floor();
    let ts = midnight + (h as i64) * 3600 + (m as i64) * 60 + s as i64;
    // The ephemeris hands out whole minutes, halves rounding up.
    let rem = ts.rem_euclid(60);
    if rem >= 30 {
        ts - rem + 60
    } else {
        ts - rem
    }
}

fn solar_day(date: NaiveDate, latitude: f64, longitude: f64, params: &Parameters) -> SolarDay {
    let eph = ephemeris(date, latitude, longitude);
    let midnight = date.and_hms_opt(0, 0, 0).unwrap().and_utc().timestamp();
    let fajr_angle_deg = params.fajr_angle as f64 / 1000.0;
    let sunset = timestamp_at(midnight, eph.sunset);
    let ishaa_raw = match params.ishaa_parameter {
        IshaaParameter::Angle(a) => {
            timestamp_at(midnight, corrected_hour_angle(&eph, -(a as f64) / 1000.0, true))
        }
        IshaaParameter::Interval(_) => sunset,
    };
    SolarDay {
        transit: timestamp_at(midnight, eph.transit),
        sunrise: timestamp_at(midnight, eph.sunrise),
        sunset,
        fajr_raw: timestamp_at(midnight, corrected_hour_angle(&eph, -fajr_angle_deg, false)),
        ishaa_raw,
        asr_shafi: timestamp_at(midnight, afternoon(&eph, 1.0)),
        asr_hanafi: timestamp_at(midnight, afternoon(&eph, 2.0)),
    }
}

fn solar_window(date: NaiveDate, latitude: f64, longitude: f64, params: &Parameters) -> SolarWindow {
    let tomorrow = date.succ_opt().unwrap();
    let day_after = tomorrow.succ_opt().unwrap();
    let eph_after = ephemeris(day_after, latitude, longitude);
    let midnight_after = day_after.and_hms_opt(0, 0, 0).unwrap().and_utc().timestamp();
    SolarWindow {
        today: solar_day(date, latitude, longitude, params),
        tomorrow: solar_day(tomorrow, latitude, longitude, params),
        day_after_sunrise: timestamp_at(midnight_after, eph_after.sunrise),
    }
}

fn coords(latitude: f64, longitude: f64) -> Coordinates {
    Coordinates::new((latitude * 1e9) as i64, (longitude * 1e9) as i64).unwrap()
}

fn date_of(date: NaiveDate) -> Date {
    Date::new(date.year(), date.month(), date.day()).unwrap()
}

fn schedule_for(date: NaiveDate, latitude: f64, longitude: f64, params: Parameters) -> PrayerTimes {
    let window = solar_window(date, latitude, longitude, &params);
    PrayerTimes::new(date_of(date), coords(latitude, longitude), params, window).unwrap()
}

fn fmt_utc(ts: i64) -> String {
    Utc.timestamp_opt(ts, 0).unwrap().format("%-l:%M %p").to_string()
}

fn fmt_offset(ts: i64, offset_seconds: i32) -> String {
    let zone = FixedOffset::east_opt(offset_seconds).expect("Invalid offset provided");
    Utc.timestamp_opt(ts, 0)
        .unwrap()
        .with_timezone(&zone)
        .format("%-l:%M %p")
        .to_string()
}

#[test]
fn calculate_prayer_times() {
    let local_date = NaiveDate::from_ymd_opt(2015, 7, 12).expect("Invalid date provided");
    let params = Configuration::with(Method::NorthAmerica, Mazhab::Hanafi);
    let schedule = schedule_for(local_date, 35.7750, -78.6336, params);

    assert_eq!(fmt_utc(schedule.time(Prayer::Fajr)), "8:42 AM");
    assert_eq!(fmt_utc(schedule.time(Prayer::Sunrise)), "10:08 AM");
    assert_eq!(fmt_utc(schedule.time(Prayer::Dhuhr)), "5:21 PM");
    assert_eq!(fmt_utc(schedule.time(Prayer::Asr)), "10:22 PM");
    assert_eq!(fmt_utc(schedule.time(Prayer::Maghrib)), "12:32 AM");
    assert_eq!(fmt_utc(schedule.time(Prayer::Ishaa)), "1:57 AM");
}

#[test]
fn calculate_times_using_the_builder_successfully() {
    let date = NaiveDate::from_ymd_opt(2015, 7, 12).expect("Invalid date provided");
    let params = Configuration::with(Method::NorthAmerica, Mazhab::Hanafi);
    let window = solar_window(date, 35.7750, -78.6336, &params);
    let result = PrayerSchedule::new()
        .on(date_of(date))
        .for_location(coords(35.7750, -78.6336))
        .with_configuration(params)
        .with_solar(window)
        .calculate();

    match result {
        Ok(schedule) => {
            assert_eq!(fmt_utc(schedule.time(Prayer::Fajr)), "8:42 AM");
            assert_eq!(fmt_utc(schedule.time(Prayer::Sunrise)), "10:08 AM");
            assert_eq!(fmt_utc(schedule.time(Prayer::Dhuhr)), "5:21 PM");
            assert_eq!(fmt_utc(schedule.time(Prayer::Asr)), "10:22 PM");
            assert_eq!(fmt_utc(schedule.time(Prayer::Maghrib)), "12:32 AM");
            assert_eq!(fmt_utc(schedule.time(Prayer::Ishaa)), "1:57 AM");
        }
        Err(_err) => assert!(false),
    }
}

#[test]
fn calculate_times_using_the_builder_failure() {
    let date = NaiveDate::from_ymd_opt(2015, 7, 12).expect("Invalid date provided");
    let params = Configuration::with(Method::NorthAmerica, Mazhab::Hanafi);
    let result = PrayerSchedule::new()
        .on(date_of(date))
        .with_configuration(params)
        .calculate();

    assert!(
        result.is_err(),
        "We were expecting an error, but received data."
    );
}

#[test]
fn calculate_qiyam_times() {
    let date = NaiveDate::from_ymd_opt(2015, 7, 12).expect("Invalid date provided");
    let params = Configuration::with(Method::NorthAmerica, Mazhab::Hanafi);
    let window = solar_window(date, 35.7750, -78.6336, &params);
    let result = PrayerSchedule::new()
        .on(date_of(date))
        .for_location(coords(35.7750, -78.6336))
        .with_configuration(params)
        .with_solar(window)
        .calculate();

    match result {
        Ok(schedule) => {
            // Today's Maghrib: 2015-07-13T00:32:00Z
            // Last Third     : 2015-07-13T05:59:00Z
            assert_eq!(fmt_utc(schedule.time(Prayer::Maghrib)), "12:32 AM");
            assert_eq!(fmt_utc(schedule.time(Prayer::Qiyam)), "5:59 AM");
        }
        Err(_err) => assert!(false),
    }
}

#[test]
fn calculate_qiyam_times_with_shafi_and_middle_of_night() {
    // The same inputs with the Shafi mazhab and the middle-of-night rule:
    // Qiyam and Maghrib are unchanged.
    let date = NaiveDate::from_ymd_opt(2015, 7, 12).expect("Invalid date provided");
    let mut params = Configuration::with(Method::NorthAmerica, Mazhab::Shafi);
    params.high_latitude_rule = HighLatitudeRule::MiddleOfTheNight;
    let schedule = schedule_for(date, 35.7750, -78.6336, params);

    assert_eq!(fmt_utc(schedule.time(Prayer::Maghrib)), "12:32 AM");
    assert_eq!(fmt_utc(schedule.time(Prayer::Qiyam)), "5:59 AM");
}

#[test]
fn calculate_times_for_singapore() {
    let mut params = Configuration::with(Method::Singapore, Mazhab::Shafi);
    params.high_latitude_rule = HighLatitudeRule::MiddleOfTheNight;

    let date = NaiveDate::from_ymd_opt(2021, 1, 13).expect("Invalid date provided");
    let latitude = 1.370844612058886;
    let longitude = 103.80145644060552;
    let window = solar_window(date, latitude, longitude, &params);
    let result = PrayerSchedule::new()
        .on(date_of(date))
        .for_location(coords(latitude, longitude))
        .with_configuration(params)
        .with_solar(window)
        .calculate();

    match result {
        Ok(schedule) => {
            let hour = 3600;
            assert_eq!(fmt_offset(schedule.time(Prayer::Fajr), 8 * hour), "5:50 AM");
            assert_eq!(fmt_offset(schedule.time(Prayer::Sunrise), 8 * hour), "7:13 AM");
            assert_eq!(fmt_offset(schedule.time(Prayer::Dhuhr), 8 * hour), "1:15 PM");
            assert_eq!(fmt_offset(schedule.time(Prayer::Asr), 8 * hour), "4:39 PM");
            assert_eq!(fmt_offset(schedule.time(Prayer::Maghrib), 8 * hour), "7:16 PM");
            assert_eq!(fmt_offset(schedule.time(Prayer::Ishaa), 8 * hour), "8:30 PM");
        }
        Err(_err) => assert!(false),
    }
}

#[test]
fn calculate_times_for_jakarta() {
    let mut params = Configuration::with(Method::Egyptian, Mazhab::Shafi);

    // The adjustments below are based on the prayer times that are
    // published for the city; the exact calculation behind them is not
    // documented, hence the use of time adjustments.
    params.method_adjustments = Adjustment::new()
        .fajr(-10)
        .sunrise(-2)
        .dhuhr(2)
        .asr(1)
        .maghrib(2)
        .ishaa(4)
        .done();

    let date = NaiveDate::from_ymd_opt(2021, 1, 12).expect("Invalid date provided");
    let latitude = -6.18233995;
    let longitude = 106.84287154;
    let window = solar_window(date, latitude, longitude, &params);
    let result = PrayerSchedule::new()
        .on(date_of(date))
        .for_location(coords(latitude, longitude))
        .with_configuration(params)
        .with_solar(window)
        .calculate();

    match result {
        Ok(schedule) => {
            let hour = 3600;
            assert_eq!(fmt_offset(schedule.time(Prayer::Fajr), 7 * hour), "4:15 AM");
            assert_eq!(fmt_offset(schedule.time(Prayer::Sunrise), 7 * hour), "5:45 AM");
            assert_eq!(fmt_offset(schedule.time(Prayer::Dhuhr), 7 * hour), "12:03 PM");
            assert_eq!(fmt_offset(schedule.time(Prayer::Asr), 7 * hour), "3:28 PM");
            assert_eq!(fmt_offset(schedule.time(Prayer::Maghrib), 7 * hour), "6:16 PM");
            assert_eq!(fmt_offset(schedule.time(Prayer::Ishaa), 7 * hour), "7:31 PM");
        }
        Err(_err) => assert!(false),
    }
}

#[test]
fn calculate_time_for_kuala_lumpur() {
    let date = NaiveDate::from_ymd_opt(2024, 4, 9).expect("Invalid date provided");
    let params = Configuration::with(Method::MuslimWorldLeague, Mazhab::Shafi);
    let window = solar_window(date, 3.12, 101.69, &params);
    let result = PrayerSchedule::new()
        .on(date_of(date))
        .for_location(coords(3.12, 101.69))
        .with_configuration(params)
        .with_solar(window)
        .calculate();

    assert!(result.is_ok());
}

#[test]
fn schedule_is_strictly_ordered() {
    let date = NaiveDate::from_ymd_opt(2015, 7, 12).expect("Invalid date provided");
    let params = Configuration::with(Method::NorthAmerica, Mazhab::Hanafi);
    let schedule = schedule_for(date, 35.7750, -78.6336, params);

    assert!(schedule.time(Prayer::Fajr) < schedule.time(Prayer::Sunrise));
    assert!(schedule.time(Prayer::Sunrise) < schedule.time(Prayer::Dhuhr));
    assert!(schedule.time(Prayer::Dhuhr) < schedule.time(Prayer::Asr));
    assert!(schedule.time(Prayer::Asr) < schedule.time(Prayer::Maghrib));
    assert!(schedule.time(Prayer::Maghrib) < schedule.time(Prayer::Ishaa));
    assert!(schedule.time(Prayer::Ishaa) < schedule.time(Prayer::Qiyam));
    assert!(schedule.time(Prayer::Qiyam) < schedule.time(Prayer::FajrTomorrow));
    assert!(schedule.time(Prayer::Maghrib) < schedule.middle_of_the_night());
    assert!(schedule.middle_of_the_night() < schedule.time(Prayer::Qiyam));
}

#[test]
fn asr_is_later_under_hanafi() {
    let date = NaiveDate::from_ymd_opt(2015, 7, 12).expect("Invalid date provided");
    let shafi = Configuration::with(Method::NorthAmerica, Mazhab::Shafi);
    let hanafi = Configuration::with(Method::NorthAmerica, Mazhab::Hanafi);
    let shafi_schedule = schedule_for(date, 35.7750, -78.6336, shafi);
    let hanafi_schedule = schedule_for(date, 35.7750, -78.6336, hanafi);

    assert!(hanafi_schedule.time(Prayer::Asr) >= shafi_schedule.time(Prayer::Asr));
    assert_eq!(
        shafi_schedule.time(Prayer::Maghrib),
        hanafi_schedule.time(Prayer::Maghrib)
    );
}

#[test]
fn current_and_next_prayer_through_the_day() {
    let date = NaiveDate::from_ymd_opt(2015, 7, 12).expect("Invalid date provided");
    let params = Configuration::with(Method::NorthAmerica, Mazhab::Hanafi);
    let schedule = schedule_for(date, 35.7750, -78.6336, params);

    let before_fajr = date.and_hms_opt(8, 0, 0).unwrap().and_utc().timestamp();
    assert_eq!(schedule.current_time(before_fajr), None);

    let during_fajr = date.and_hms_opt(9, 0, 0).unwrap().and_utc().timestamp();
    assert_eq!(schedule.current_time(during_fajr), Some(Prayer::Fajr));
    assert_eq!(schedule.current(during_fajr), Prayer::Fajr);
    assert_eq!(schedule.next(during_fajr), Prayer::Sunrise);

    let during_dhuhr = date.and_hms_opt(19, 0, 0).unwrap().and_utc().timestamp();
    assert_eq!(schedule.current(during_dhuhr), Prayer::Dhuhr);
    assert_eq!(schedule.next(during_dhuhr), Prayer::Asr);

    let during_maghrib = Utc
        .with_ymd_and_hms(2015, 7, 13, 1, 0, 0)
        .unwrap()
        .timestamp();
    assert_eq!(schedule.current(during_maghrib), Prayer::Maghrib);

    // Dhuhr starts 5:21 PM UTC; at 5:00 PM, 21 minutes remain.
    let before_dhuhr = date.and_hms_opt(17, 0, 0).unwrap().and_utc().timestamp();
    assert_eq!(schedule.current(before_dhuhr), Prayer::Sunrise);
    assert_eq!(schedule.time_remaining(before_dhuhr), (0, 21));
}

#[test]
fn moonsighting_high_latitude_uses_the_escape_valve() {
    // At 59.9° the moonsighting-committee method must ignore the raw
    // depression crossing entirely: moving it by an hour must not move
    // Fajr or Ishaa.
    let date = NaiveDate::from_ymd_opt(2016, 1, 1).expect("Invalid date provided");
    let params = Configuration::with(Method::MoonsightingCommittee, Mazhab::Hanafi);
    let latitude = 59.9094;
    let longitude = 10.7349;
    let window = solar_window(date, latitude, longitude, &params);
    let mut shifted = window;
    shifted.today.fajr_raw = window.today.fajr_raw - 3600;
    shifted.today.ishaa_raw = window.today.ishaa_raw + 3600;

    let baseline =
        PrayerTimes::new(date_of(date), coords(latitude, longitude), params, window).unwrap();
    let moved =
        PrayerTimes::new(date_of(date), coords(latitude, longitude), params, shifted).unwrap();

    assert_eq!(baseline.time(Prayer::Fajr), moved.time(Prayer::Fajr));
    assert_eq!(baseline.time(Prayer::Ishaa), moved.time(Prayer::Ishaa));

    // And the escape valve verifiably differs from the plain angle-based
    // estimate at this latitude: a plain (non-moonsighting) bundle with
    // the same angles lands elsewhere.
    let mut plain = params;
    plain.is_moonsighting_committee = false;
    plain.method_adjustments = azan::TimeAdjustment {
        fajr: 0,
        sunrise: 0,
        dhuhr: 5,
        asr: 0,
        maghrib: 3,
        ishaa: 0,
    };
    let plain_schedule =
        PrayerTimes::new(date_of(date), coords(latitude, longitude), plain, window).unwrap();
    assert_ne!(baseline.time(Prayer::Fajr), plain_schedule.time(Prayer::Fajr));
}


#[test]
fn moonsighting_southern_latitude_uses_the_escape_valve() {
    // The escape valve keys on the latitude's magnitude: 59.9° south in
    // the southern winter behaves like the northern case — the raw
    // depression crossings are ignored entirely.
    let date = NaiveDate::from_ymd_opt(2016, 7, 1).expect("Invalid date provided");
    let params = Configuration::with(Method::MoonsightingCommittee, Mazhab::Hanafi);
    let latitude = -59.9094;
    let longitude = 10.7349;
    let window = solar_window(date, latitude, longitude, &params);
    let mut shifted = window;
    shifted.today.fajr_raw = window.today.fajr_raw - 3600;
    shifted.today.ishaa_raw = window.today.ishaa_raw + 3600;

    let baseline =
        PrayerTimes::new(date_of(date), coords(latitude, longitude), params, window).unwrap();
    let moved =
        PrayerTimes::new(date_of(date), coords(latitude, longitude), params, shifted).unwrap();

    assert_eq!(baseline.time(Prayer::Fajr), moved.time(Prayer::Fajr));
    assert_eq!(baseline.time(Prayer::Ishaa), moved.time(Prayer::Ishaa));
}
