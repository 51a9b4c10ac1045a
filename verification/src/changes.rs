//! One pass of the status feed over the registry: what the registry holds
//! afterwards, and which stations changed.

use crate::gbfs::StationStatusObj;
use crate::station::{station_status_of_gbfs, status_of, with_status, StationInfo};
use crate::stations_collection::{
    lemma_position_of_id, lemma_positions_kept, position_of_id, StationsCollection,
};
use vstd::prelude::*;

verus! {

/// The stations after one feed record was applied: the station that the
/// record names has the record's status, and nothing else differs. A record
/// that names no station changes nothing.
pub open spec fn apply_entry(stations: Seq<StationInfo>, entry: StationStatusObj) -> Seq<
    StationInfo,
> {
    match position_of_id(stations, entry.station_id) {
        Some(k) => stations.update(k, with_status(stations[k], status_of(entry))),
        None => stations,
    }
}

/// The stations after the records of `feed` were applied one after the other.
pub open spec fn apply_feed(stations: Seq<StationInfo>, feed: Seq<StationStatusObj>) -> Seq<
    StationInfo,
>
    decreases feed.len(),
{
    if feed.len() == 0 {
        stations
    } else {
        apply_entry(apply_feed(stations, feed.drop_last()), feed.last())
    }
}

/// Whether `entry` reports another status than its station has in `stations`.
pub open spec fn entry_changes(stations: Seq<StationInfo>, entry: StationStatusObj) -> bool {
    match position_of_id(stations, entry.station_id) {
        Some(k) => stations[k].current_status != status_of(entry),
        None => false,
    }
}

/// The ids of the records of `feed` that changed their station's status at
/// the moment they were applied, in feed order.
pub open spec fn changes_of(stations: Seq<StationInfo>, feed: Seq<StationStatusObj>) -> Seq<u16>
    decreases feed.len(),
{
    if feed.len() == 0 {
        Seq::empty()
    } else {
        let earlier = changes_of(stations, feed.drop_last());
        if entry_changes(apply_feed(stations, feed.drop_last()), feed.last()) {
            earlier.push(feed.last().station_id)
        } else {
            earlier
        }
    }
}

/// Whether record `k` of `feed` is its first that names no station.
pub open spec fn first_unknown(
    stations: Seq<StationInfo>,
    feed: Seq<StationStatusObj>,
    k: int,
) -> bool {
    &&& 0 <= k < feed.len()
    &&& position_of_id(stations, feed[k].station_id).is_none()
    &&& forall|j: int|
        0 <= j < k ==> position_of_id(stations, #[trigger] feed[j].station_id).is_some()
}

/// Whether every record of `feed` names a station.
pub open spec fn all_known(stations: Seq<StationInfo>, feed: Seq<StationStatusObj>) -> bool {
    forall|j: int|
        0 <= j < feed.len() ==> position_of_id(stations, #[trigger] feed[j].station_id).is_some()
}

/// A feed record that names no station of the registry.
#[derive(Clone, Copy, Debug, PartialEq, Eq, Structural)]
pub struct UnknownStation {
    pub station_id: u16,
}

/// Brings the registry up to date with one status feed, record by record in
/// feed order, and lists the ids of the records that changed a status.
///
/// A record that names no station ends the pass: the records before it have
/// been applied, those after it have not.
pub fn update_station_statuses(
    stations: &mut StationsCollection<StationInfo>,
    feed: &Vec<StationStatusObj>,
) -> (outcome: Result<Vec<u16>, UnknownStation>)
    requires
        old(stations).wf(),
    ensures
        final(stations).wf(),
        match outcome {
            Ok(changes) => {
                &&& all_known(old(stations)@, feed@)
                &&& final(stations)@ == apply_feed(old(stations)@, feed@)
                &&& changes@ == changes_of(old(stations)@, feed@)
            },
            Err(unknown) => exists|k: int|
                {
                    &&& #[trigger] first_unknown(old(stations)@, feed@, k)
                    &&& unknown.station_id == feed@[k].station_id
                    &&& final(stations)@ == apply_feed(old(stations)@, feed@.take(k))
                },
        },
{
    let ghost before = stations@;
    let mut changes: Vec<u16> = Vec::new();
    let mut i: usize = 0;
    while i < feed.len()
        invariant
            i <= feed.len(),
            before == old(stations)@,
            stations.wf(),
            stations@ == apply_feed(before, feed@.take(i as int)),
            changes@ == changes_of(before, feed@.take(i as int)),
            forall|j: int|
                0 <= j < i ==> position_of_id(before, #[trigger] feed@[j].station_id).is_some(),
        decreases feed.len() - i,
    {
        let entry = &feed[i];
        let new_status = station_status_of_gbfs(entry);
        let ghost current = stations@;
        proof {
            assert(feed@.take(i + 1).drop_last() =~= feed@.take(i as int));
            lemma_apply_feed_keeps_ids(before, feed@.take(i as int));
            lemma_position_of_id(current, entry.station_id);
        }
        match stations.get_by_id_mut(entry.station_id) {
            Some(station) => {
                if station.current_status != new_status {
                    station.current_status = new_status;
                    changes.push(entry.station_id);
                }
            },
            None => {
                proof {
                    assert(first_unknown(before, feed@, i as int));
                }
                return Err(UnknownStation { station_id: entry.station_id });
            },
        }
        proof {
            let k = position_of_id(current, entry.station_id).unwrap();
            lemma_positions_kept(current, k, with_status(current[k], new_status));
        }
        i = i + 1;
    }
    proof {
        assert(feed@.take(i as int) =~= feed@);
    }
    Ok(changes)
}

/// Applying records moves no station and changes no id: every id is found
/// where it was found before.
pub proof fn lemma_apply_feed_keeps_ids(stations: Seq<StationInfo>, feed: Seq<StationStatusObj>)
    ensures
        apply_feed(stations, feed).len() == stations.len(),
        forall|i: int|
            0 <= i < stations.len() ==> {
                &&& (#[trigger] apply_feed(stations, feed)[i]).id == stations[i].id
                &&& apply_feed(stations, feed)[i].external_id == stations[i].external_id
            },
        forall|id: u16|
            #![trigger position_of_id(apply_feed(stations, feed), id)]
            position_of_id(apply_feed(stations, feed), id) == position_of_id(stations, id),
    decreases feed.len(),
{
    if feed.len() > 0 {
        let before = apply_feed(stations, feed.drop_last());
        lemma_apply_feed_keeps_ids(stations, feed.drop_last());
        lemma_position_of_id(before, feed.last().station_id);
        match position_of_id(before, feed.last().station_id) {
            Some(k) => {
                lemma_positions_kept(before, k, with_status(before[k], status_of(feed.last())));
            },
            None => {},
        }
    }
}

/// Every id of a change list resolves to a station.
pub proof fn lemma_changes_are_known(stations: Seq<StationInfo>, feed: Seq<StationStatusObj>)
    ensures
        forall|i: int|
            0 <= i < changes_of(stations, feed).len() ==> position_of_id(
                stations,
                #[trigger] changes_of(stations, feed)[i],
            ).is_some(),
    decreases feed.len(),
{
    if feed.len() > 0 {
        lemma_changes_are_known(stations, feed.drop_last());
        lemma_apply_feed_keeps_ids(stations, feed.drop_last());
    }
}

/// Whether the station that `id` resolves to has another status in `after`
/// than in `before`.
pub open spec fn status_differs(
    before: Seq<StationInfo>,
    after: Seq<StationInfo>,
    id: u16,
) -> bool {
    match position_of_id(before, id) {
        Some(k) => before[k].current_status != after[k].current_status,
        None => false,
    }
}

/// Whether no two records of `feed` name the same station.
pub open spec fn distinct_ids(feed: Seq<StationStatusObj>) -> bool {
    forall|i: int, j: int|
        0 <= i < j < feed.len() ==> (#[trigger] feed[i]).station_id != (
        #[trigger] feed[j]).station_id
}

/// A feed that names no station twice still does so without its last
/// record, and none of the records before the last names the last one's
/// station.
proof fn lemma_front_of_distinct(feed: Seq<StationStatusObj>)
    requires
        distinct_ids(feed),
        feed.len() > 0,
    ensures
        distinct_ids(feed.drop_last()),
        forall|j: int|
            0 <= j < feed.len() - 1 ==> (#[trigger] feed.drop_last()[j]).station_id
                != feed.last().station_id,
{
}

/// A station that no record of the feed names keeps its status.
pub proof fn lemma_unnamed_station_untouched(
    stations: Seq<StationInfo>,
    feed: Seq<StationStatusObj>,
    id: u16,
)
    requires
        forall|j: int| 0 <= j < feed.len() ==> (#[trigger] feed[j]).station_id != id,
    ensures
        !status_differs(stations, apply_feed(stations, feed), id),
    decreases feed.len(),
{
    if feed.len() > 0 {
        let front = feed.drop_last();
        assert forall|j: int| 0 <= j < front.len() implies (#[trigger] front[j]).station_id
            != id by {
            assert(front[j] == feed[j]);
        }
        lemma_unnamed_station_untouched(stations, front, id);
        lemma_apply_feed_keeps_ids(stations, front);
        lemma_position_of_id(stations, id);
        lemma_position_of_id(stations, feed.last().station_id);
    }
}

/// Whatever the feed, every station whose status after the pass differs from
/// its status before it is on the change list.
pub proof fn lemma_every_difference_is_listed(
    stations: Seq<StationInfo>,
    feed: Seq<StationStatusObj>,
    id: u16,
)
    requires
        status_differs(stations, apply_feed(stations, feed), id),
    ensures
        changes_of(stations, feed).contains(id),
    decreases feed.len(),
{
    let front = feed.drop_last();
    let entry = feed.last();
    let earlier = changes_of(stations, front);
    let changes = changes_of(stations, feed);
    lemma_apply_feed_keeps_ids(stations, front);
    lemma_position_of_id(stations, id);
    lemma_position_of_id(stations, entry.station_id);
    if status_differs(stations, apply_feed(stations, front), id) {
        lemma_every_difference_is_listed(stations, front, id);
        let w = choose|w: int| 0 <= w < earlier.len() && earlier[w] == id;
        assert(changes[w] == id);
    } else {
        assert(changes[changes.len() - 1] == id);
    }
}

/// The change list of one pass over a feed holds exactly the ids of the
/// stations whose status after the pass differs from their status before it,
/// provided that no two records of the feed name the same station.
///
/// A feed that names a station twice may change its status and change it
/// back: the id is then listed although the status is what it was.
pub proof fn lemma_changes_are_the_differences(
    stations: Seq<StationInfo>,
    feed: Seq<StationStatusObj>,
)
    requires
        distinct_ids(feed),
    ensures
        changes_of(stations, feed).to_set() == Set::new(
            |id: u16| status_differs(stations, apply_feed(stations, feed), id),
        ),
    decreases feed.len(),
{
    let changes = changes_of(stations, feed);
    let differing = Set::new(|id: u16| status_differs(stations, apply_feed(stations, feed), id));
    if feed.len() > 0 {
        let front = feed.drop_last();
        let entry = feed.last();
        let earlier = changes_of(stations, front);
        lemma_front_of_distinct(feed);
        lemma_changes_are_the_differences(stations, front);
        lemma_unnamed_station_untouched(stations, front, entry.station_id);
        lemma_apply_feed_keeps_ids(stations, front);
        lemma_position_of_id(stations, entry.station_id);
        assert forall|id: u16| changes.to_set().contains(id) <==> differing.contains(id) by {
            lemma_position_of_id(stations, id);
            assert(earlier.to_set().contains(id) <==> earlier.contains(id));
            if entry_changes(apply_feed(stations, front), entry) {
                if earlier.contains(id) {
                    let w = choose|w: int| 0 <= w < earlier.len() && earlier[w] == id;
                    assert(changes[w] == id);
                }
                if id == entry.station_id {
                    assert(changes[changes.len() - 1] == id);
                }
            }
        }
    }
    assert(changes.to_set() =~= differing);
}

/// The ids of the records of `feed` that report another status than their
/// station has in `stations`, in feed order.
pub open spec fn differing_ids(stations: Seq<StationInfo>, feed: Seq<StationStatusObj>) -> Seq<
    u16,
> {
    feed.filter(|entry: StationStatusObj| entry_changes(stations, entry)).map_values(
        |entry: StationStatusObj| entry.station_id,
    )
}

/// Where no two records of the feed name the same station, each record is
/// judged against the status that its station had before the pass: the
/// change list is the ids of the records that differ from it, in feed order.
pub proof fn lemma_changes_are_judged_against_the_start(
    stations: Seq<StationInfo>,
    feed: Seq<StationStatusObj>,
)
    requires
        distinct_ids(feed),
    ensures
        changes_of(stations, feed) == differing_ids(stations, feed),
    decreases feed.len(),
{
    reveal(Seq::filter);
    if feed.len() > 0 {
        let front = feed.drop_last();
        let entry = feed.last();
        let differs = |entry: StationStatusObj| entry_changes(stations, entry);
        let id_of = |entry: StationStatusObj| entry.station_id;
        lemma_front_of_distinct(feed);
        lemma_changes_are_judged_against_the_start(stations, front);
        lemma_unnamed_station_untouched(stations, front, entry.station_id);
        lemma_apply_feed_keeps_ids(stations, front);
        lemma_position_of_id(stations, entry.station_id);
        if differs(entry) {
            assert(feed.filter(differs).map_values(id_of) =~= front.filter(differs).map_values(
                id_of,
            ).push(entry.station_id));
        }
    }
}

/// Where no two records of the feed name the same station, every station
/// that a record names has that record's status after the pass.
pub proof fn lemma_named_station_has_reported_status(
    stations: Seq<StationInfo>,
    feed: Seq<StationStatusObj>,
    j: int,
)
    requires
        distinct_ids(feed),
        0 <= j < feed.len(),
        position_of_id(stations, feed[j].station_id).is_some(),
    ensures
        apply_feed(stations, feed)[position_of_id(
            stations,
            feed[j].station_id,
        ).unwrap()].current_status == status_of(feed[j]),
    decreases feed.len(),
{
    let front = feed.drop_last();
    lemma_apply_feed_keeps_ids(stations, front);
    lemma_position_of_id(stations, feed[j].station_id);
    lemma_position_of_id(stations, feed.last().station_id);
    if j < feed.len() - 1 {
        lemma_front_of_distinct(feed);
        lemma_named_station_has_reported_status(stations, front, j);
    }
}

/// A pass over a feed changes nothing of a station but its status.
pub proof fn lemma_apply_feed_keeps_station(stations: Seq<StationInfo>, feed: Seq<StationStatusObj>)
    ensures
        apply_feed(stations, feed).len() == stations.len(),
        forall|i: int|
            0 <= i < stations.len() ==> #[trigger] apply_feed(stations, feed)[i] == with_status(
                stations[i],
                apply_feed(stations, feed)[i].current_status,
            ),
    decreases feed.len(),
{
    if feed.len() > 0 {
        lemma_apply_feed_keeps_station(stations, feed.drop_last());
        lemma_position_of_id(apply_feed(stations, feed.drop_last()), feed.last().station_id);
    }
}

} // verus!
