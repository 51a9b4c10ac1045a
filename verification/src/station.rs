//! A station as the registry holds it, and its status triple.

use crate::gbfs::StationStatusObj;
use crate::stations_collection::StationLike;
use vstd::prelude::*;

verus! {

/// How many bikes, e-bikes and free docks a station has. Two statuses are the
/// same exactly when all three counts are.
#[derive(Clone, Copy, Debug, PartialEq, Eq, Structural)]
pub struct StationStatus {
    pub num_bikes_available: u16,
    pub num_ebikes_available: u16,
    pub num_docks_available: u16,
}

impl StationStatus {
    /// The status of a station before anything is known of it: no bikes, and
    /// every dock free.
    pub fn new_empty(capacity: u16) -> (status: Self)
        ensures
            status.num_bikes_available == 0,
            status.num_ebikes_available == 0,
            status.num_docks_available == capacity,
    {
        Self { num_bikes_available: 0, num_ebikes_available: 0, num_docks_available: capacity }
    }
}

/// A station of the registry: what identifies and describes it, which never
/// changes, and its current status.
///
/// `external_id` is the station's UUID as a 128-bit number, most significant
/// byte first; `lat` and `lon` are the bit patterns of single-precision
/// floats.
#[derive(Clone, Debug, PartialEq, Eq)]
pub struct StationInfo {
    pub id: u16,
    pub name: String,
    pub external_id: u128,
    pub lat: u32,
    pub lon: u32,
    pub capacity: u16,
    pub current_status: StationStatus,
}

impl StationLike for StationInfo {
    open spec fn spec_id(&self) -> u16 {
        self.id
    }

    open spec fn spec_external_id(&self) -> u128 {
        self.external_id
    }

    fn id(&self) -> u16 {
        self.id
    }

    fn external_id(&self) -> u128 {
        self.external_id
    }
}

/// `station` with its status replaced by `status`.
pub open spec fn with_status(station: StationInfo, status: StationStatus) -> StationInfo {
    StationInfo { current_status: status, ..station }
}

/// The status triple that a feed record reports.
pub open spec fn status_of(obj: StationStatusObj) -> StationStatus {
    StationStatus {
        num_bikes_available: obj.num_bikes_available,
        num_ebikes_available: obj.num_ebikes_available,
        num_docks_available: obj.num_docks_available,
    }
}

/// Takes the status triple out of a record of the status feed. What the
/// record says of disabled bikes and docks, and when it was reported, plays
/// no part.
pub fn station_status_of_gbfs(obj: &StationStatusObj) -> (status: StationStatus)
    ensures
        status == status_of(*obj),
{
    StationStatus {
        num_bikes_available: obj.num_bikes_available,
        num_ebikes_available: obj.num_ebikes_available,
        num_docks_available: obj.num_docks_available,
    }
}

} // verus!
