use vstd::prelude::*;

verus! {

/// Scale of the fixed-point coordinate representation: one degree is this
/// many coordinate units.
pub const NANO_PER_DEGREE: i64 = 1_000_000_000;

/// Largest representable latitude: 90 degrees north.
pub const LATITUDE_LIMIT: i64 = 90_000_000_000;

/// Largest representable longitude: 180 degrees east.
pub const LONGITUDE_LIMIT: i64 = 180_000_000_000;

/// A validated geographic position.
///
/// Latitude and longitude are held in nano-degrees (billionths of a
/// degree), north and east positive, so that the high-latitude rules and
/// the seasonal twilight correction can be computed exactly in integer
/// arithmetic. A nano-degree is about a tenth of a millimetre on the
/// ground, far below the precision of any prayer-time computation.
#[derive(PartialEq, Eq, Structural, Debug, Copy, Clone)]
pub struct Coordinates {
    pub latitude: i64,
    pub longitude: i64,
}

impl Coordinates {
    /// Latitude lies in [-90, 90] degrees and longitude in [-180, 180].
    pub open spec fn valid(self) -> bool {
        &&& -LATITUDE_LIMIT <= self.latitude <= LATITUDE_LIMIT
        &&& -LONGITUDE_LIMIT <= self.longitude <= LONGITUDE_LIMIT
    }

    /// Builds a validated position from nano-degree components; anything
    /// outside the latitude or longitude range is rejected.
    pub fn new(latitude: i64, longitude: i64) -> (r: Option<Coordinates>)
        ensures
            match r {
                Some(c) => c.valid() && c == (Coordinates { latitude, longitude }),
                None => !(Coordinates { latitude, longitude }).valid(),
            },
    {
        if -LATITUDE_LIMIT <= latitude && latitude <= LATITUDE_LIMIT && -LONGITUDE_LIMIT
            <= longitude && longitude <= LONGITUDE_LIMIT {
            Some(Coordinates { latitude, longitude })
        } else {
            None
        }
    }

    /// Checks validity at run time.
    pub fn is_valid(&self) -> (r: bool)
        ensures
            r == self.valid(),
    {
        -LATITUDE_LIMIT <= self.latitude && self.latitude <= LATITUDE_LIMIT && -LONGITUDE_LIMIT
            <= self.longitude && self.longitude <= LONGITUDE_LIMIT
    }

    /// Magnitude of the latitude, in nano-degrees.
    pub open spec fn spec_abs_latitude(self) -> int {
        if self.latitude < 0 {
            -self.latitude as int
        } else {
            self.latitude as int
        }
    }
}

} // verus!
