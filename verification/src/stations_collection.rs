//! The station registry: one backing sequence of stations and two indexes
//! into it, by numeric id and by external id.

use std::collections::HashMap;
use vstd::prelude::*;

verus! {

broadcast use vstd::std_specs::hash::group_hash_axioms;

/// What the registry needs to know of a station: its two identifiers.
///
/// The external id is the station's UUID as a 128-bit number, most
/// significant byte first.
pub trait StationLike {
    spec fn spec_id(&self) -> u16;

    spec fn spec_external_id(&self) -> u128;

    fn id(&self) -> (id: u16)
        ensures
            id == self.spec_id(),
    ;

    fn external_id(&self) -> (id: u128)
        ensures
            id == self.spec_external_id(),
    ;
}

/// The position of the last of `stations` whose numeric id is `id`.
pub open spec fn position_of_id<T: StationLike>(stations: Seq<T>, id: u16) -> Option<int>
    decreases stations.len(),
{
    if stations.len() == 0 {
        None
    } else if stations.last().spec_id() == id {
        Some(stations.len() - 1)
    } else {
        position_of_id(stations.drop_last(), id)
    }
}

/// The position of the last of `stations` whose external id is `id`.
pub open spec fn position_of_external_id<T: StationLike>(stations: Seq<T>, id: u128) -> Option<int>
    decreases stations.len(),
{
    if stations.len() == 0 {
        None
    } else if stations.last().spec_external_id() == id {
        Some(stations.len() - 1)
    } else {
        position_of_external_id(stations.drop_last(), id)
    }
}

/// `position_of_id` finds a station with the id that no later station shares,
/// and finds nothing exactly when no station has the id.
pub proof fn lemma_position_of_id<T: StationLike>(stations: Seq<T>, id: u16)
    ensures
        match position_of_id(stations, id) {
            Some(k) => {
                &&& 0 <= k < stations.len()
                &&& stations[k].spec_id() == id
                &&& forall|j: int| k < j < stations.len() ==> stations[j].spec_id() != id
            },
            None => forall|j: int| 0 <= j < stations.len() ==> stations[j].spec_id() != id,
        },
    decreases stations.len(),
{
    if stations.len() > 0 && stations.last().spec_id() != id {
        let front = stations.drop_last();
        lemma_position_of_id(front, id);
        assert forall|j: int| 0 <= j < front.len() implies front[j] == stations[j] by {}
    }
}

/// `position_of_external_id` finds a station with the external id that no
/// later station shares, and finds nothing exactly when no station has it.
pub proof fn lemma_position_of_external_id<T: StationLike>(stations: Seq<T>, id: u128)
    ensures
        match position_of_external_id(stations, id) {
            Some(k) => {
                &&& 0 <= k < stations.len()
                &&& stations[k].spec_external_id() == id
                &&& forall|j: int| k < j < stations.len() ==> stations[j].spec_external_id() != id
            },
            None => forall|j: int| 0 <= j < stations.len() ==> stations[j].spec_external_id() != id,
        },
    decreases stations.len(),
{
    if stations.len() > 0 && stations.last().spec_external_id() != id {
        let front = stations.drop_last();
        lemma_position_of_external_id(front, id);
        assert forall|j: int| 0 <= j < front.len() implies front[j] == stations[j] by {}
    }
}

/// Replacing a station by one with the same numeric id leaves every lookup
/// by numeric id at the position where it was.
pub proof fn lemma_position_of_id_kept<T: StationLike>(
    stations: Seq<T>,
    k: int,
    station: T,
    id: u16,
)
    requires
        0 <= k < stations.len(),
        station.spec_id() == stations[k].spec_id(),
    ensures
        position_of_id(stations.update(k, station), id) == position_of_id(stations, id),
    decreases stations.len(),
{
    let after = stations.update(k, station);
    if k == stations.len() - 1 {
        assert(after.drop_last() =~= stations.drop_last());
    } else {
        assert(after.drop_last() =~= stations.drop_last().update(k, station));
        lemma_position_of_id_kept(stations.drop_last(), k, station, id);
    }
}

/// Replacing a station by one with the same external id leaves every lookup
/// by external id at the position where it was.
pub proof fn lemma_position_of_external_id_kept<T: StationLike>(
    stations: Seq<T>,
    k: int,
    station: T,
    id: u128,
)
    requires
        0 <= k < stations.len(),
        station.spec_external_id() == stations[k].spec_external_id(),
    ensures
        position_of_external_id(stations.update(k, station), id) == position_of_external_id(
            stations,
            id,
        ),
    decreases stations.len(),
{
    let after = stations.update(k, station);
    if k == stations.len() - 1 {
        assert(after.drop_last() =~= stations.drop_last());
    } else {
        assert(after.drop_last() =~= stations.drop_last().update(k, station));
        lemma_position_of_external_id_kept(stations.drop_last(), k, station, id);
    }
}

/// Replacing a station by one with the same two ids leaves every lookup at
/// the position where it was.
pub proof fn lemma_positions_kept<T: StationLike>(stations: Seq<T>, k: int, station: T)
    requires
        0 <= k < stations.len(),
        station.spec_id() == stations[k].spec_id(),
        station.spec_external_id() == stations[k].spec_external_id(),
    ensures
        forall|id: u16|
            #![trigger position_of_id(stations.update(k, station), id)]
            position_of_id(stations.update(k, station), id) == position_of_id(stations, id),
        forall|id: u128|
            #![trigger position_of_external_id(stations.update(k, station), id)]
            position_of_external_id(stations.update(k, station), id) == position_of_external_id(
                stations,
                id,
            ),
{
    assert forall|id: u16|
        #![trigger position_of_id(stations.update(k, station), id)]
        position_of_id(stations.update(k, station), id) == position_of_id(stations, id) by {
        lemma_position_of_id_kept(stations, k, station, id);
    }
    assert forall|id: u128|
        #![trigger position_of_external_id(stations.update(k, station), id)]
        position_of_external_id(stations.update(k, station), id) == position_of_external_id(
            stations,
            id,
        ) by {
        lemma_position_of_external_id_kept(stations, k, station, id);
    }
}

/// A fixed set of stations that can be found by numeric id and by external id.
///
/// The stations keep the order in which they were given. Where two of them
/// share an id, lookups by that id find the later one.
#[derive(Clone)]
pub struct StationsCollection<T> {
    stations: Vec<T>,
    stations_by_id: HashMap<u16, usize>,
    stations_by_external_id: HashMap<u128, usize>,
}

impl<T> View for StationsCollection<T> {
    type V = Seq<T>;

    /// The stations, in the order in which the registry was built.
    closed spec fn view(&self) -> Seq<T> {
        self.stations@
    }
}

impl<T> StationsCollection<T> {
    /// How many stations the registry holds.
    pub fn len(&self) -> (n: usize)
        ensures
            n == self@.len(),
    {
        self.stations.len()
    }

    /// The stations in registry order.
    pub fn stations(&self) -> (all: &Vec<T>)
        ensures
            all@ == self@,
    {
        &self.stations
    }
}

impl<T: StationLike> StationsCollection<T> {
    /// The index by numeric id, as a map from id to position.
    pub closed spec fn id_index(&self) -> Map<u16, usize> {
        self.stations_by_id@
    }

    /// The index by external id, as a map from id to position.
    pub closed spec fn external_id_index(&self) -> Map<u128, usize> {
        self.stations_by_external_id@
    }

    /// Both indexes say of every id what the stations themselves say: the id
    /// is indexed exactly when a station has it, and then at the position of
    /// the last such station.
    pub open spec fn wf(&self) -> bool {
        &&& forall|id: u16|
            #![trigger self.id_index().contains_key(id)]
            #![trigger position_of_id(self@, id)]
            self.id_index().contains_key(id) <==> position_of_id(self@, id).is_some()
        &&& forall|id: u16|
            #![trigger self.id_index()[id]]
            #![trigger position_of_id(self@, id)]
            self.id_index().contains_key(id) ==> Some(self.id_index()[id] as int) == position_of_id(
                self@,
                id,
            )
        &&& forall|id: u128|
            #![trigger self.external_id_index().contains_key(id)]
            #![trigger position_of_external_id(self@, id)]
            self.external_id_index().contains_key(id) <==> position_of_external_id(
                self@,
                id,
            ).is_some()
        &&& forall|id: u128|
            #![trigger self.external_id_index()[id]]
            #![trigger position_of_external_id(self@, id)]
            self.external_id_index().contains_key(id) ==> Some(
                self.external_id_index()[id] as int,
            ) == position_of_external_id(self@, id)
    }

    /// Builds the registry from the stations in the order given.
    pub fn from_iter(stations: Vec<T>) -> (collection: Self)
        ensures
            collection@ == stations@,
            collection.wf(),
    {
        let mut stations_by_id: HashMap<u16, usize> = HashMap::new();
        let mut stations_by_external_id: HashMap<u128, usize> = HashMap::new();
        let mut idx: usize = 0;
        while idx < stations.len()
            invariant
                idx <= stations.len(),
                forall|id: u16|
                    #![trigger stations_by_id@.contains_key(id)]
                    stations_by_id@.contains_key(id) <==> position_of_id(
                        stations@.take(idx as int),
                        id,
                    ).is_some(),
                forall|id: u16|
                    #![trigger stations_by_id@[id]]
                    stations_by_id@.contains_key(id) ==> Some(stations_by_id@[id] as int)
                        == position_of_id(stations@.take(idx as int), id),
                forall|id: u128|
                    #![trigger stations_by_external_id@.contains_key(id)]
                    stations_by_external_id@.contains_key(id) <==> position_of_external_id(
                        stations@.take(idx as int),
                        id,
                    ).is_some(),
                forall|id: u128|
                    #![trigger stations_by_external_id@[id]]
                    stations_by_external_id@.contains_key(id) ==> Some(
                        stations_by_external_id@[id] as int,
                    ) == position_of_external_id(stations@.take(idx as int), id),
            decreases stations.len() - idx,
        {
            let station = &stations[idx];
            proof {
                assert(stations@.take(idx + 1).drop_last() =~= stations@.take(idx as int));
            }
            stations_by_id.insert(station.id(), idx);
            stations_by_external_id.insert(station.external_id(), idx);
            idx = idx + 1;
        }
        proof {
            assert(stations@.take(idx as int) =~= stations@);
        }
        Self { stations, stations_by_id, stations_by_external_id }
    }

    /// The station that lookups by `id` resolve to.
    pub open spec fn spec_get_by_id(&self, id: u16) -> Option<T> {
        match position_of_id(self@, id) {
            Some(k) => Some(self@[k]),
            None => None,
        }
    }

    /// The station that lookups by external id resolve to.
    pub open spec fn spec_get_by_external_id(&self, id: u128) -> Option<T> {
        match position_of_external_id(self@, id) {
            Some(k) => Some(self@[k]),
            None => None,
        }
    }

    /// The last station with the numeric id `id`, if there is one.
    pub fn get_by_id(&self, id: u16) -> (found: Option<&T>)
        requires
            self.wf(),
        ensures
            match found {
                Some(station) => self.spec_get_by_id(id) == Some(*station),
                None => self.spec_get_by_id(id).is_none(),
            },
    {
        proof {
            lemma_position_of_id(self@, id);
        }
        match self.stations_by_id.get(&id) {
            Some(idx) => {
                Some(&self.stations[*idx])
            },
            None => {
                None
            },
        }
    }

    /// The last station with the external id `id`, if there is one.
    pub fn get_by_external_id(&self, id: u128) -> (found: Option<&T>)
        requires
            self.wf(),
        ensures
            match found {
                Some(station) => self.spec_get_by_external_id(id) == Some(*station),
                None => self.spec_get_by_external_id(id).is_none(),
            },
    {
        proof {
            lemma_position_of_external_id(self@, id);
        }
        match self.stations_by_external_id.get(&id) {
            Some(idx) => {
                Some(&self.stations[*idx])
            },
            None => {
                None
            },
        }
    }

    /// The station that lookups by `id` resolve to, for changing it in place.
    ///
    /// The registry afterwards holds whatever the caller left in the station;
    /// its indexes are as they were, so they stay right as long as the caller
    /// leaves the station's two ids alone.
    pub fn get_by_id_mut(&mut self, id: u16) -> (found: Option<&mut T>)
        requires
            old(self).wf(),
        ensures
            final(self).id_index() == old(self).id_index(),
            final(self).external_id_index() == old(self).external_id_index(),
            match found {
                Some(station) => {
                    &&& position_of_id(old(self)@, id) matches Some(k)
                    &&& *station == old(self)@[k]
                    &&& final(self)@ == old(self)@.update(k, *final(station))
                },
                None => position_of_id(old(self)@, id).is_none() && final(self)@ == old(self)@,
            },
    {
        proof {
            lemma_position_of_id(self@, id);
        }
        match self.stations_by_id.get(&id) {
            Some(idx) => {
                let k: usize = *idx;
                Some(&mut self.stations[k])
            },
            None => {
                None
            },
        }
    }

    /// The station that lookups by external id resolve to, for changing it in
    /// place. See `get_by_id_mut`.
    pub fn get_by_external_id_mut(&mut self, id: u128) -> (found: Option<&mut T>)
        requires
            old(self).wf(),
        ensures
            final(self).id_index() == old(self).id_index(),
            final(self).external_id_index() == old(self).external_id_index(),
            match found {
                Some(station) => {
                    &&& position_of_external_id(old(self)@, id) matches Some(k)
                    &&& *station == old(self)@[k]
                    &&& final(self)@ == old(self)@.update(k, *final(station))
                },
                None => position_of_external_id(old(self)@, id).is_none() && final(self)@ == old(
                    self,
                )@,
            },
    {
        proof {
            lemma_position_of_external_id(self@, id);
        }
        match self.stations_by_external_id.get(&id) {
            Some(idx) => {
                let k: usize = *idx;
                Some(&mut self.stations[k])
            },
            None => {
                None
            },
        }
    }
}

/// A station that shares neither of its ids with a later station is what
/// both lookups resolve to: the one by its numeric id and the one by its
/// external id.
///
/// A station that shares an id with a later one is hidden behind it for
/// lookups by that id.
pub proof fn lemma_lookups_agree<T: StationLike>(collection: StationsCollection<T>, i: int)
    requires
        0 <= i < collection@.len(),
        forall|j: int|
            i < j < collection@.len() ==> {
                &&& (#[trigger] collection@[j]).spec_id() != collection@[i].spec_id()
                &&& collection@[j].spec_external_id() != collection@[i].spec_external_id()
            },
    ensures
        collection.spec_get_by_id(collection@[i].spec_id()) == Some(collection@[i]),
        collection.spec_get_by_external_id(collection@[i].spec_external_id()) == Some(
            collection@[i],
        ),
{
    lemma_position_of_id(collection@, collection@[i].spec_id());
    lemma_position_of_external_id(collection@, collection@[i].spec_external_id());
}

/// A value written through `get_by_id_mut` is written to the one station
/// that the registry holds under both ids: where the value keeps the
/// station's two ids, the registry stays well-formed and as long as it was,
/// the lookup by the numeric id and the lookup by the external id both
/// resolve to the new value, and every other station is what it was.
///
/// `before` and `after` are the registry before the call and after the
/// caller has let go of the station, as the contract of `get_by_id_mut`
/// relates them. The station must not share its external id with a later
/// one, which would hide it from lookups by that id.
pub proof fn lemma_write_is_seen_by_both_lookups<T: StationLike>(
    before: StationsCollection<T>,
    after: StationsCollection<T>,
    id: u16,
    value: T,
)
    requires
        before.wf(),
        position_of_id(before@, id) matches Some(k) && {
            &&& after@ == before@.update(k, value)
            &&& value.spec_id() == before@[k].spec_id()
            &&& value.spec_external_id() == before@[k].spec_external_id()
            &&& forall|j: int|
                k < j < before@.len() ==> (#[trigger] before@[j]).spec_external_id()
                    != before@[k].spec_external_id()
        },
        after.id_index() == before.id_index(),
        after.external_id_index() == before.external_id_index(),
    ensures
        after.wf(),
        after@.len() == before@.len(),
        after.spec_get_by_id(id) == Some(value),
        after.spec_get_by_external_id(value.spec_external_id()) == Some(value),
        forall|i: int|
            0 <= i < before@.len() && Some(i) != position_of_id(before@, id)
                ==> #[trigger] after@[i] == before@[i],
        forall|other: u16|
            other != id ==> #[trigger] after.spec_get_by_id(other) == before.spec_get_by_id(other),
        forall|other: u128|
            other != value.spec_external_id() ==> #[trigger] after.spec_get_by_external_id(other)
                == before.spec_get_by_external_id(other),
{
    let k = position_of_id(before@, id).unwrap();
    lemma_position_of_id(before@, id);
    lemma_position_of_external_id(before@, value.spec_external_id());
    lemma_positions_kept(before@, k, value);
    assert forall|other: u16| other != id implies #[trigger] after.spec_get_by_id(other)
        == before.spec_get_by_id(other) by {
        lemma_position_of_id(before@, other);
    }
    assert forall|other: u128| other != value.spec_external_id() implies #[trigger]
        after.spec_get_by_external_id(other) == before.spec_get_by_external_id(other) by {
        lemma_position_of_external_id(before@, other);
    }
}

/// The same for a value written through `get_by_external_id_mut`: where it
/// keeps the station's two ids and the station does not share its numeric id
/// with a later one, both lookups resolve to the new value and every other
/// station is what it was.
pub proof fn lemma_write_by_external_id_is_seen_by_both_lookups<T: StationLike>(
    before: StationsCollection<T>,
    after: StationsCollection<T>,
    id: u128,
    value: T,
)
    requires
        before.wf(),
        position_of_external_id(before@, id) matches Some(k) && {
            &&& after@ == before@.update(k, value)
            &&& value.spec_id() == before@[k].spec_id()
            &&& value.spec_external_id() == before@[k].spec_external_id()
            &&& forall|j: int|
                k < j < before@.len() ==> (#[trigger] before@[j]).spec_id() != before@[k].spec_id()
        },
        after.id_index() == before.id_index(),
        after.external_id_index() == before.external_id_index(),
    ensures
        after.wf(),
        after@.len() == before@.len(),
        after.spec_get_by_external_id(id) == Some(value),
        after.spec_get_by_id(value.spec_id()) == Some(value),
        forall|i: int|
            0 <= i < before@.len() && Some(i) != position_of_external_id(before@, id)
                ==> #[trigger] after@[i] == before@[i],
{
    let k = position_of_external_id(before@, id).unwrap();
    lemma_position_of_external_id(before@, id);
    lemma_position_of_id(before@, value.spec_id());
    lemma_positions_kept(before@, k, value);
}

} // verus!
