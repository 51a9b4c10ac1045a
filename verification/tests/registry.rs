use bikeshare_server::station::{StationInfo, StationStatus};
use bikeshare_server::stations_collection::{StationLike, StationsCollection};

fn station(id: u16, external_id: u128, name: &str, capacity: u16) -> StationInfo {
    StationInfo {
        id,
        name: name.to_string(),
        external_id,
        lat: 0x4236_0000,
        lon: 0xc293_0000,
        capacity,
        current_status: StationStatus::new_empty(capacity),
    }
}

fn three() -> StationsCollection<StationInfo> {
    StationsCollection::from_iter(vec![
        station(1, 0xa1, "Metcalfe", 10),
        station(2, 0xa2, "Berri", 5),
        station(7, 0xa7, "Laurier", 20),
    ])
}

#[test]
fn from_iter_keeps_order_and_length() {
    let stations = three();
    assert_eq!(stations.len(), 3);
    let names: Vec<&str> = stations.stations().iter().map(|s| s.name.as_str()).collect();
    assert_eq!(names, vec!["Metcalfe", "Berri", "Laurier"]);
}

#[test]
fn empty_registry_finds_nothing() {
    let stations: StationsCollection<StationInfo> = StationsCollection::from_iter(Vec::new());
    assert_eq!(stations.len(), 0);
    assert!(stations.get_by_id(1).is_none());
    assert!(stations.get_by_external_id(0xa1).is_none());
}

#[test]
fn both_lookups_resolve_to_the_same_station() {
    let stations = three();
    for expected in stations.stations() {
        let by_id = stations.get_by_id(expected.id()).unwrap();
        let by_external_id = stations.get_by_external_id(expected.external_id()).unwrap();
        assert!(std::ptr::eq(by_id, by_external_id));
        assert!(std::ptr::eq(by_id, expected));
    }
}

#[test]
fn unknown_ids_are_not_found() {
    let stations = three();
    assert!(stations.get_by_id(3).is_none());
    assert!(stations.get_by_external_id(0xa3).is_none());
    assert!(stations.get_by_id(0).is_none());
    assert!(stations.get_by_external_id(1).is_none());
}

#[test]
fn the_later_of_two_stations_with_one_id_wins() {
    let stations = StationsCollection::from_iter(vec![
        station(1, 0xa1, "first", 10),
        station(1, 0xb1, "second", 5),
        station(2, 0xa1, "third", 20),
    ]);
    assert_eq!(stations.len(), 3);
    assert_eq!(stations.get_by_id(1).unwrap().name, "second");
    assert_eq!(stations.get_by_external_id(0xa1).unwrap().name, "third");
    assert_eq!(stations.get_by_external_id(0xb1).unwrap().name, "second");
    assert_eq!(stations.get_by_id(2).unwrap().name, "third");
}

#[test]
fn get_by_id_mut_changes_the_station_in_place() {
    let mut stations = three();
    let status =
        StationStatus { num_bikes_available: 3, num_ebikes_available: 1, num_docks_available: 1 };
    stations.get_by_id_mut(2).unwrap().current_status = status;
    assert_eq!(stations.get_by_id(2).unwrap().current_status, status);
    assert_eq!(stations.get_by_external_id(0xa2).unwrap().current_status, status);
    assert_eq!(stations.get_by_id(1).unwrap().current_status, StationStatus::new_empty(10));
    assert_eq!(stations.stations()[1].current_status, status);
    assert!(stations.get_by_id_mut(9).is_none());
}

#[test]
fn get_by_external_id_mut_changes_the_station_in_place() {
    let mut stations = three();
    let status =
        StationStatus { num_bikes_available: 0, num_ebikes_available: 7, num_docks_available: 13 };
    stations.get_by_external_id_mut(0xa7).unwrap().current_status = status;
    assert_eq!(stations.get_by_id(7).unwrap().current_status, status);
    assert_eq!(stations.len(), 3);
    assert!(stations.get_by_external_id_mut(0xff).is_none());
}

#[test]
fn station_info_reports_its_ids() {
    let s = station(513, 0x67e55044_10b1_426f_9247_bb680e5fe0c8, "x", 1);
    assert_eq!(s.id(), 513);
    assert_eq!(s.external_id(), 0x67e55044_10b1_426f_9247_bb680e5fe0c8);
}

#[test]
fn a_write_through_one_lookup_is_seen_through_the_other() {
    let mut stations = three();
    let before: Vec<StationInfo> = stations.stations().clone();
    let written =
        StationStatus { num_bikes_available: 2, num_ebikes_available: 2, num_docks_available: 1 };
    stations.get_by_id_mut(2).unwrap().current_status = written;
    let seen = stations.get_by_external_id(0xa2).unwrap();
    assert_eq!(seen.current_status, written);
    assert!(std::ptr::eq(seen, stations.get_by_id(2).unwrap()));
    assert_eq!(stations.len(), before.len());
    for (index, old) in before.iter().enumerate() {
        if old.id != 2 {
            assert_eq!(&stations.stations()[index], old);
            assert_eq!(stations.get_by_id(old.id), Some(old));
            assert_eq!(stations.get_by_external_id(old.external_id), Some(old));
        }
    }
    stations.get_by_external_id_mut(0xa1).unwrap().current_status = written;
    assert_eq!(stations.get_by_id(1).unwrap().current_status, written);
}
