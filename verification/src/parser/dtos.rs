use vstd::prelude::*;
use crate::astronomy::unit::Coordinates;
use crate::models::date::Date;
use crate::models::mazhab::Mazhab;
use crate::models::method::Method;

verus! {

/// A whole prayer-time request as it arrives on the wire: a coordinate, a
/// calculation method, a mazhab and a date. Deserialization happens
/// outside the library; these carry the parsed plain values.
#[derive(PartialEq, Eq, Structural, Debug, Copy, Clone)]
pub struct RootDto {
    pub coordinates: CoordinatesDto,
    pub method: MethodDto,
    pub mazhab: MazhabDto,
    pub date: DateDto,
}

/// A raw coordinate pair in nano-degrees, not yet validated.
#[derive(PartialEq, Eq, Structural, Debug, Copy, Clone)]
pub struct CoordinatesDto {
    pub latitude: i64,
    pub longitude: i64,
}

/// The calculation authorities accepted on the wire.
#[derive(PartialEq, Eq, Structural, Debug, Copy, Clone)]
pub enum MethodDto {
    MuslimWorldLeague,
    Egyptian,
    UmmAlQura,
    MoonsightingCommittee,
    NorthAmerica,
    Singapore,
}

/// The mazhabs accepted on the wire.
#[derive(PartialEq, Eq, Structural, Debug, Copy, Clone)]
pub enum MazhabDto {
    Hanafi,
    Shafi,
}

/// A raw calendar date, not yet validated.
#[derive(PartialEq, Eq, Structural, Debug, Copy, Clone)]
pub struct DateDto {
    pub year: i32,
    pub month: u32,
    pub day: u32,
}

impl CoordinatesDto {
    /// Validates the raw pair into library coordinates; out-of-range
    /// values are rejected.
    pub fn to_coordinates(&self) -> (r: Option<Coordinates>)
        ensures
            match r {
                Some(c) => c.valid() && c == (Coordinates {
                    latitude: self.latitude,
                    longitude: self.longitude,
                }),
                None => !(Coordinates {
                    latitude: self.latitude,
                    longitude: self.longitude,
                }).valid(),
            },
    {
        Coordinates::new(self.latitude, self.longitude)
    }
}

impl MethodDto {
    /// The library method named on the wire.
    pub open spec fn spec_to_method(self) -> Method {
        match self {
            MethodDto::MuslimWorldLeague => Method::MuslimWorldLeague,
            MethodDto::Egyptian => Method::Egyptian,
            MethodDto::UmmAlQura => Method::UmmAlQura,
            MethodDto::MoonsightingCommittee => Method::MoonsightingCommittee,
            MethodDto::NorthAmerica => Method::NorthAmerica,
            MethodDto::Singapore => Method::Singapore,
        }
    }

    /// Maps the wire name onto the library method.
    pub fn to_method(&self) -> (r: Method)
        ensures
            r == self.spec_to_method(),
    {
        match self {
            MethodDto::MuslimWorldLeague => Method::MuslimWorldLeague,
            MethodDto::Egyptian => Method::Egyptian,
            MethodDto::UmmAlQura => Method::UmmAlQura,
            MethodDto::MoonsightingCommittee => Method::MoonsightingCommittee,
            MethodDto::NorthAmerica => Method::NorthAmerica,
            MethodDto::Singapore => Method::Singapore,
        }
    }
}

impl MazhabDto {
    /// The library mazhab named on the wire.
    pub open spec fn spec_to_mazhab(self) -> Mazhab {
        match self {
            MazhabDto::Hanafi => Mazhab::Hanafi,
            MazhabDto::Shafi => Mazhab::Shafi,
        }
    }

    /// Maps the wire name onto the library mazhab.
    pub fn to_mazhab(&self) -> (r: Mazhab)
        ensures
            r == self.spec_to_mazhab(),
    {
        match self {
            MazhabDto::Hanafi => Mazhab::Hanafi,
            MazhabDto::Shafi => Mazhab::Shafi,
        }
    }
}

impl Default for MazhabDto {
    /// A request that names no mazhab gets Shafi.
    fn default() -> (d: Self)
        ensures
            d == MazhabDto::Shafi,
    {
        MazhabDto::Shafi
    }
}

impl DateDto {
    /// Validates the raw date into a library date; combinations that name
    /// no actual day are rejected.
    pub fn to_date(&self) -> (r: Option<Date>)
        ensures
            match r {
                Some(d) => d.valid() && d == (Date {
                    year: self.year,
                    month: self.month,
                    day: self.day,
                }),
                None => !(Date { year: self.year, month: self.month, day: self.day }).valid(),
            },
    {
        Date::new(self.year, self.month, self.day)
    }
}

} // verus!
