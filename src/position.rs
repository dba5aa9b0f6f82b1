use vstd::prelude::*;

verus! {

/// Largest magnitude of a longitude, in millionths of a degree.
pub const MAX_LON_E6: i64 = 180_000_000;

/// Largest magnitude of a latitude, in millionths of a degree.
pub const MAX_LAT_E6: i64 = 90_000_000;

/// A geographic position: longitude (x) and latitude (y), in millionths of a degree.
#[derive(Clone, Copy, Debug, PartialEq, Eq, Structural)]
pub struct Position {
    pub lon_e6: i64,
    pub lat_e6: i64,
}

impl Position {
    /// Longitude and latitude lie on the globe.
    pub open spec fn wf(self) -> bool {
        -MAX_LON_E6 <= self.lon_e6 <= MAX_LON_E6 && -MAX_LAT_E6 <= self.lat_e6 <= MAX_LAT_E6
    }

    /// A position from longitude and latitude in millionths of a degree; `None` off the globe.
    pub fn new(lon_e6: i64, lat_e6: i64) -> (r: Option<Position>)
        ensures
            r == (if (Position { lon_e6, lat_e6 }).wf() {
                Some(Position { lon_e6, lat_e6 })
            } else {
                None::<Position>
            }),
    {
        let p = Position { lon_e6, lat_e6 };
        if -MAX_LON_E6 <= lon_e6 && lon_e6 <= MAX_LON_E6 && -MAX_LAT_E6 <= lat_e6 && lat_e6
            <= MAX_LAT_E6 {
            Some(p)
        } else {
            None
        }
    }
}

} // verus!
