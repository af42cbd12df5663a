//! A fetched snapshot of the day's sunrise, sunset and twilight instants.

use vstd::prelude::*;
use crate::time::Timestamp;

verus! {

/// One snapshot from the astronomical-data provider. Either a snapshot is
/// absent (never fetched) or it is fully populated; a partially filled value
/// never exists. All instants are UTC.
#[derive(Clone, Copy, PartialEq, Eq, Structural, Debug)]
pub struct SunData {
    pub sunrise: Timestamp,
    pub sunset: Timestamp,
    pub solar_noon: Timestamp,
    pub day_length_seconds: u32,
    pub civil_twilight_begin: Timestamp,
    pub civil_twilight_end: Timestamp,
    pub nautical_twilight_begin: Timestamp,
    pub nautical_twilight_end: Timestamp,
    pub astronomical_twilight_begin: Timestamp,
    pub astronomical_twilight_end: Timestamp,
}

impl SunData {
    /// Internal consistency of a snapshot: in the provider's reporting
    /// convention the day's sunrise instant precedes its sunset instant.
    pub open spec fn well_formed(&self) -> bool {
        self.sunrise.unix_seconds < self.sunset.unix_seconds
    }

    /// Runtime check of `well_formed`, for callers that receive a snapshot
    /// from outside and must reject an inconsistent one.
    pub fn is_well_formed(&self) -> (b: bool)
        ensures
            b == self.well_formed(),
    {
        self.sunrise.unix_seconds < self.sunset.unix_seconds
    }
}

} // verus!
