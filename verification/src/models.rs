//! Value types describing a prayer-time configuration.

pub mod adjustments;
pub mod date;
pub mod high_altitude_rule;
pub mod ishaa_parameter;
pub mod mazhab;
pub mod method;
pub mod parameters;
pub mod prayer;
pub mod rounding;
pub mod twilight;
