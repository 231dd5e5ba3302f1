//! Daily Islamic prayer schedule computation.
//!
//! The crate derives the ordered daily prayer schedule — Fajr, Sunrise,
//! Dhuhr, Asr, Maghrib, Ishaa, Qiyam and the following day's Fajr — from a
//! civil date, a validated coordinate and an immutable parameter bundle.
//! Solar geometry (transit, sunrise, sunset and depression-angle crossing
//! instants) is handed in as plain Unix timestamps; everything downstream of
//! it — high-latitude safety bounds, the seasonal twilight correction,
//! minute adjustments, rounding policies, night portions and the ordered
//! assembly — is computed and verified here.

pub mod astronomy;
pub mod models;
pub mod parser;
pub mod schedule;

pub use crate::astronomy::solar::SolarDay;
pub use crate::astronomy::solar::SolarWindow;
pub use crate::astronomy::unit::Coordinates;
pub use crate::models::adjustments::Adjustment;
pub use crate::models::adjustments::TimeAdjustment;
pub use crate::models::date::Date;
pub use crate::models::high_altitude_rule::HighLatitudeRule;
pub use crate::models::ishaa_parameter::IshaaParameter;
pub use crate::models::mazhab::Mazhab;
pub use crate::models::method::Method;
pub use crate::models::parameters::Configuration;
pub use crate::models::parameters::Fraction;
pub use crate::models::parameters::NightPortions;
pub use crate::models::parameters::Parameters;
pub use crate::models::prayer::Prayer;
pub use crate::models::rounding::Rounding;
pub use crate::models::twilight::Twilight;
pub use crate::schedule::PrayerSchedule;
pub use crate::schedule::PrayerTimes;
pub use crate::schedule::ScheduleError;
