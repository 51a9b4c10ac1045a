//! The snapshot of all stations that readers are served, and the single slot
//! that holds the latest one.

use crate::station::{StationInfo, StationStatus};
use crate::stations_collection::StationsCollection;
use vstd::prelude::*;

verus! {

/// One station as a snapshot shows it: how it is identified and described,
/// and its status at the time of the snapshot.
#[derive(Clone, Debug, PartialEq, Eq)]
pub struct IdentifiedStationStatus {
    pub external_id: u128,
    pub name: String,
    pub lat: u32,
    pub lon: u32,
    pub status: StationStatus,
    pub capacity: u16,
}

/// A snapshot: every station of the registry at one moment, with the time
/// of that moment in seconds since the epoch.
#[derive(Clone, Debug, PartialEq, Eq)]
pub struct StationsResponse {
    pub updated_at: i64,
    pub stations: Vec<IdentifiedStationStatus>,
}

/// A `StationsResponse` with its stations as a sequence.
pub struct Snapshot {
    pub updated_at: i64,
    pub stations: Seq<IdentifiedStationStatus>,
}

impl View for StationsResponse {
    type V = Snapshot;

    open spec fn view(&self) -> Snapshot {
        Snapshot { updated_at: self.updated_at, stations: self.stations@ }
    }
}

/// What a snapshot shows of `station`.
pub open spec fn identified(station: StationInfo) -> IdentifiedStationStatus {
    IdentifiedStationStatus {
        external_id: station.external_id,
        name: station.name,
        lat: station.lat,
        lon: station.lon,
        status: station.current_status,
        capacity: station.capacity,
    }
}

/// The snapshot of `stations` at the time `now`: every station, once, in
/// registry order, each with the status that it has in `stations`.
pub open spec fn snapshot_of(stations: Seq<StationInfo>, now: i64) -> Snapshot {
    Snapshot {
        updated_at: now,
        stations: Seq::new(stations.len(), |i: int| identified(stations[i])),
    }
}

/// Takes the snapshot of the whole registry at the time `now`.
pub fn snapshot(stations: &StationsCollection<StationInfo>, now: i64) -> (response:
    StationsResponse)
    ensures
        response@ == snapshot_of(stations@, now),
{
    let all = stations.stations();
    let mut converted: Vec<IdentifiedStationStatus> = Vec::new();
    let mut idx: usize = 0;
    while idx < all.len()
        invariant
            idx <= all.len(),
            converted@.len() == idx,
            forall|i: int| 0 <= i < idx ==> #[trigger] converted@[i] == identified(all@[i]),
        decreases all.len() - idx,
    {
        let station = &all[idx];
        converted.push(
            IdentifiedStationStatus {
                external_id: station.external_id,
                name: station.name.clone(),
                lat: station.lat,
                lon: station.lon,
                status: station.current_status,
                capacity: station.capacity,
            },
        );
        idx = idx + 1;
    }
    let response = StationsResponse { updated_at: now, stations: converted };
    assert(response@.stations =~= snapshot_of(stations@, now).stations);
    response
}

/// The one slot from which readers are served: it holds the latest snapshot
/// that was published, whole, and nothing of those before it.
pub struct Broadcaster {
    current: Option<StationsResponse>,
}

impl View for Broadcaster {
    type V = Option<StationsResponse>;

    /// The snapshot on offer; `None` before the first was published.
    closed spec fn view(&self) -> Option<StationsResponse> {
        self.current
    }
}

impl Broadcaster {
    /// A broadcaster on which nothing was published yet: readers get the
    /// placeholder for "no snapshot".
    pub fn new() -> (broadcaster: Self)
        ensures
            broadcaster@.is_none(),
    {
        Self { current: None }
    }

    /// Replaces whatever was on offer by `snapshot`. Nothing of the earlier
    /// snapshot is left: a reader gets either all of the old one or all of
    /// the new one.
    pub fn publish(&mut self, snapshot: StationsResponse)
        ensures
            final(self)@ == Some(snapshot),
    {
        self.current = Some(snapshot);
    }

    /// The snapshot on offer, if one was published.
    pub fn latest(&self) -> (current: Option<&StationsResponse>)
        ensures
            match current {
                Some(snapshot) => self@ == Some(*snapshot),
                None => self@.is_none(),
            },
    {
        self.current.as_ref()
    }
}

} // verus!
