//! The poll cycle: the order in which the service fetches the status feed,
//! publishes the snapshot, announces the changes and sleeps.

use crate::broadcaster::{snapshot, snapshot_of, Snapshot, StationsResponse};
use crate::changes::{
    all_known, apply_feed, changes_of, first_unknown, lemma_apply_feed_keeps_ids,
    lemma_apply_feed_keeps_station, lemma_changes_are_known, update_station_statuses,
};
use crate::fcm::{message_for, push_message, PushMessage, PushMessageView};
use crate::gbfs::{StationCollectionObj, StationInfoObj, StationStatusObj};
use crate::station::{StationInfo, StationStatus};
use crate::stations_collection::{position_of_id, StationsCollection};
use vstd::prelude::*;

verus! {

/// The station that the registry holds for a record of the station
/// information feed: nothing is known of its status yet.
pub open spec fn station_of(info: StationInfoObj<String>) -> StationInfo {
    StationInfo {
        id: info.station_id,
        name: info.name,
        external_id: info.external_id,
        lat: info.lat,
        lon: info.lon,
        capacity: info.capacity,
        current_status: StationStatus {
            num_bikes_available: 0,
            num_ebikes_available: 0,
            num_docks_available: info.capacity,
        },
    }
}

/// The stations of a registry built from `info`, in the order of `info`.
pub open spec fn registry_of(info: Seq<StationInfoObj<String>>) -> Seq<StationInfo> {
    Seq::new(info.len(), |i: int| station_of(info[i]))
}

/// Builds the registry from the station information feed: one station for
/// each record, in feed order, with no bikes and every dock free.
pub fn build_registry(info: &Vec<StationInfoObj<String>>) -> (stations: StationsCollection<
    StationInfo,
>)
    ensures
        stations.wf(),
        stations@ == registry_of(info@),
{
    let mut list: Vec<StationInfo> = Vec::new();
    let mut idx: usize = 0;
    while idx < info.len()
        invariant
            idx <= info.len(),
            list@.len() == idx,
            forall|i: int| 0 <= i < idx ==> #[trigger] list@[i] == station_of(info@[i]),
        decreases info.len() - idx,
    {
        let record = &info[idx];
        list.push(
            StationInfo {
                id: record.station_id,
                name: record.name.clone(),
                external_id: record.external_id,
                lat: record.lat,
                lon: record.lon,
                capacity: record.capacity,
                current_status: StationStatus::new_empty(record.capacity),
            },
        );
        idx = idx + 1;
    }
    StationsCollection::from_iter(list)
}

/// Where a poll cycle stands.
#[derive(Clone, Copy, Debug, PartialEq, Eq, Structural)]
pub enum Phase {
    /// The status feed is being fetched.
    Fetching,
    /// The cycle's snapshot is being handed to the readers.
    Publishing,
    /// The message for the first pending change is being delivered.
    Notifying,
    /// The cycle is over; the next begins after the pause.
    Sleeping,
    /// A shutdown was asked for during the pause.
    Stopped,
    /// The cycle failed, and the service with it.
    Failed,
}

/// What came of the step that the synchronizer asked for.
#[derive(Clone, Debug, PartialEq, Eq)]
pub enum SyncEvent {
    /// The status feed was fetched and decoded, at the time `now` in seconds
    /// since the epoch.
    Fetched { statuses: Vec<StationStatusObj>, now: i64 },
    /// The status feed could not be fetched or decoded.
    FetchFailed,
    /// The snapshot is on offer.
    Published,
    /// The message was delivered.
    Notified,
    /// The delivery of the message was given up.
    NotifyFailed,
    /// The pause is over.
    Woke,
    /// A shutdown was asked for during the pause.
    Shutdown,
}

/// Why a cycle failed.
#[derive(Clone, Copy, Debug, PartialEq, Eq, Structural)]
pub enum SyncFailure {
    Fetch,
    UnknownStation { station_id: u16 },
    Notification,
}

/// The next step of the poll cycle.
#[derive(Clone, Debug, PartialEq, Eq)]
pub enum SyncAction {
    /// Fetch and decode the status feed.
    Fetch,
    /// Put this snapshot on offer in place of the last one.
    Publish(StationsResponse),
    /// Deliver this message, with retries.
    Notify(PushMessage),
    /// Wait this long, or until a shutdown is asked for.
    Sleep { seconds: u64 },
    /// Leave the loop; all is well.
    Stop,
    /// Leave the loop with this failure and bring the service down.
    Fail(SyncFailure),
}

/// A `SyncAction` with what it carries as mathematical values.
pub enum SyncActionView {
    Fetch,
    Publish(Snapshot),
    Notify(PushMessageView),
    Sleep { seconds: u64 },
    Stop,
    Fail(SyncFailure),
}

impl View for SyncAction {
    type V = SyncActionView;

    open spec fn view(&self) -> SyncActionView {
        match *self {
            SyncAction::Fetch => SyncActionView::Fetch,
            SyncAction::Publish(response) => SyncActionView::Publish(response@),
            SyncAction::Notify(message) => SyncActionView::Notify(message@),
            SyncAction::Sleep { seconds } => SyncActionView::Sleep { seconds },
            SyncAction::Stop => SyncActionView::Stop,
            SyncAction::Fail(failure) => SyncActionView::Fail(failure),
        }
    }
}

/// The pause between two cycles.
pub const POLL_INTERVAL_SECONDS: u64 = 10;

/// The synchronizer as a mathematical value: the stations of its registry,
/// where the cycle stands, the changes of this cycle that have not been
/// announced yet, in feed order, and the time of the cycle's fetch.
pub struct SyncState {
    pub stations: Seq<StationInfo>,
    pub phase: Phase,
    pub pending: Seq<u16>,
    pub now: i64,
}

/// Whether `event` can follow the step that a synchronizer in `phase` asked
/// for.
pub open spec fn phase_accepts(phase: Phase, event: SyncEvent) -> bool {
    match phase {
        Phase::Fetching => event is Fetched || event is FetchFailed,
        Phase::Publishing => event is Published,
        Phase::Notifying => event is Notified || event is NotifyFailed,
        Phase::Sleeping => event is Woke || event is Shutdown,
        Phase::Stopped => false,
        Phase::Failed => false,
    }
}

/// The message that announces the status of the station that `id` resolves
/// to.
pub open spec fn notification_for(
    stations: Seq<StationInfo>,
    id: u16,
    now: i64,
) -> PushMessageView {
    let station = stations[position_of_id(stations, id).unwrap()];
    message_for(station.external_id, station.current_status, now)
}

/// What follows once the snapshot is out and the changes before `pending`
/// are announced: the message for the first pending change, or the pause
/// when none is left.
pub open spec fn proceed(stations: Seq<StationInfo>, pending: Seq<u16>, now: i64) -> (
    SyncState,
    SyncActionView,
) {
    if pending.len() > 0 {
        (
            SyncState { stations, phase: Phase::Notifying, pending, now },
            SyncActionView::Notify(notification_for(stations, pending[0], now)),
        )
    } else {
        (
            SyncState { stations, phase: Phase::Sleeping, pending, now },
            SyncActionView::Sleep { seconds: POLL_INTERVAL_SECONDS },
        )
    }
}

/// The synchronizer after `event`, and the step to take then.
///
/// A fetched feed is applied to the registry at once; the snapshot that is
/// published shows the registry after that, and the changes found are then
/// announced one by one in feed order. A feed that names an unknown station,
/// a fetch that fails and a delivery that is given up end the cycle in
/// failure. A shutdown is heeded during the pause, and only then.
///
/// This says what follows an event that the phase accepts; of any other
/// event it says nothing that is meant.
pub open spec fn react(state: SyncState, event: SyncEvent) -> (SyncState, SyncActionView) {
    match (state.phase, event) {
        (Phase::Fetching, SyncEvent::Fetched { statuses, now }) => {
            if all_known(state.stations, statuses@) {
                let stations = apply_feed(state.stations, statuses@);
                (
                    SyncState {
                        stations,
                        phase: Phase::Publishing,
                        pending: changes_of(state.stations, statuses@),
                        now,
                    },
                    SyncActionView::Publish(snapshot_of(stations, now)),
                )
            } else {
                let k = choose|k: int| first_unknown(state.stations, statuses@, k);
                (
                    SyncState {
                        stations: apply_feed(state.stations, statuses@.take(k)),
                        phase: Phase::Failed,
                        ..state
                    },
                    SyncActionView::Fail(
                        SyncFailure::UnknownStation { station_id: statuses@[k].station_id },
                    ),
                )
            }
        },
        (Phase::Fetching, SyncEvent::FetchFailed) => (
            SyncState { phase: Phase::Failed, ..state },
            SyncActionView::Fail(SyncFailure::Fetch),
        ),
        (Phase::Publishing, SyncEvent::Published) => proceed(
            state.stations,
            state.pending,
            state.now,
        ),
        (Phase::Notifying, SyncEvent::Notified) => proceed(
            state.stations,
            state.pending.skip(1),
            state.now,
        ),
        (Phase::Notifying, SyncEvent::NotifyFailed) => (
            SyncState { phase: Phase::Failed, ..state },
            SyncActionView::Fail(SyncFailure::Notification),
        ),
        (Phase::Sleeping, SyncEvent::Woke) => (
            SyncState { phase: Phase::Fetching, ..state },
            SyncActionView::Fetch,
        ),
        (Phase::Sleeping, SyncEvent::Shutdown) => (
            SyncState { phase: Phase::Stopped, ..state },
            SyncActionView::Stop,
        ),
        _ => (state, SyncActionView::Stop),
    }
}

/// The snapshot that a cycle publishes is of one moment: it carries the time
/// of the cycle's fetch and shows every station of the registry once, in
/// registry order, with the status that the station has after the whole feed
/// was applied, never with one from before where the feed changed it.
pub proof fn lemma_published_snapshot_is_whole(
    state: SyncState,
    statuses: Vec<StationStatusObj>,
    now: i64,
)
    requires
        state.phase == Phase::Fetching,
        all_known(state.stations, statuses@),
    ensures
        ({
            let event = SyncEvent::Fetched { statuses, now };
            let after = react(state, event).0;
            &&& react(state, event).1 matches SyncActionView::Publish(published)
            &&& after.phase == Phase::Publishing
            &&& after.stations == apply_feed(state.stations, statuses@)
            &&& published.updated_at == now
            &&& published.stations.len() == state.stations.len()
            &&& forall|i: int|
                0 <= i < state.stations.len() ==> {
                    &&& (#[trigger] published.stations[i]).status
                        == after.stations[i].current_status
                    &&& published.stations[i].external_id == state.stations[i].external_id
                    &&& published.stations[i].name == state.stations[i].name
                    &&& published.stations[i].capacity == state.stations[i].capacity
                    &&& published.stations[i].lat == state.stations[i].lat
                    &&& published.stations[i].lon == state.stations[i].lon
                }
        }),
{
    lemma_apply_feed_keeps_station(state.stations, statuses@);
}

/// The synchronizer after the events of `events`, one after the other, and
/// the steps that it asked for on the way.
pub open spec fn run(state: SyncState, events: Seq<SyncEvent>) -> (SyncState, Seq<SyncActionView>)
    decreases events.len(),
{
    if events.len() == 0 {
        (state, Seq::empty())
    } else {
        let earlier = run(state, events.drop_last());
        let last = react(earlier.0, events.last());
        (last.0, earlier.1.push(last.1))
    }
}

/// The steps that announce the changes of `pending`, one message for each,
/// in the order of `pending`.
pub open spec fn announcements(stations: Seq<StationInfo>, pending: Seq<u16>, now: i64) -> Seq<
    SyncActionView,
> {
    Seq::new(
        pending.len(),
        |i: int| SyncActionView::Notify(notification_for(stations, pending[i], now)),
    )
}

/// The snapshot is on offer, and then `delivered` messages are delivered.
pub open spec fn publication_and_deliveries(delivered: nat) -> Seq<SyncEvent> {
    seq![SyncEvent::Published] + Seq::new(delivered, |i: int| SyncEvent::Notified)
}

/// Where a cycle stands after its snapshot is on offer and the first
/// `delivered` of its messages are delivered.
proof fn lemma_deliveries_in_order(state: SyncState, delivered: nat)
    requires
        state.phase == Phase::Publishing,
        delivered <= state.pending.len(),
    ensures
        run(state, publication_and_deliveries(delivered)) == if delivered < state.pending.len() {
            (
                SyncState {
                    phase: Phase::Notifying,
                    pending: state.pending.skip(delivered as int),
                    ..state
                },
                announcements(state.stations, state.pending, state.now).take(delivered as int + 1),
            )
        } else {
            (
                SyncState { phase: Phase::Sleeping, pending: Seq::empty(), ..state },
                announcements(state.stations, state.pending, state.now).push(
                    SyncActionView::Sleep { seconds: POLL_INTERVAL_SECONDS },
                ),
            )
        },
    decreases delivered,
{
    let events = publication_and_deliveries(delivered);
    let all = announcements(state.stations, state.pending, state.now);
    let count = state.pending.len();
    if delivered == 0 {
        assert(run(state, events.drop_last()) == (state, Seq::<SyncActionView>::empty()));
        assert(state.pending.skip(0) =~= state.pending);
        if count == 0 {
            assert(state.pending =~= Seq::empty());
            assert(Seq::<SyncActionView>::empty().push(
                SyncActionView::Sleep { seconds: POLL_INTERVAL_SECONDS },
            ) =~= all.push(SyncActionView::Sleep { seconds: POLL_INTERVAL_SECONDS }));
        }
    } else {
        let before = (delivered - 1) as nat;
        assert(events.drop_last() =~= publication_and_deliveries(before));
        lemma_deliveries_in_order(state, before);
        let left = state.pending.skip(before as int);
        assert(left.skip(1) =~= state.pending.skip(delivered as int));
        if delivered < count {
            assert(all.take(delivered as int).push(all[delivered as int]) =~= all.take(
                delivered as int + 1,
            ));
        } else {
            assert(state.pending.skip(delivered as int) =~= Seq::empty());
        }
    }
}

/// Once a cycle's snapshot is on offer, its changes are announced one by
/// one, in feed order, each with the status that the registry holds for the
/// station and the time of the cycle's fetch; when the last message is
/// delivered the cycle goes to sleep, with the registry as it was published.
pub proof fn lemma_cycle_announces_every_change(state: SyncState)
    requires
        state.phase == Phase::Publishing,
    ensures
        run(state, publication_and_deliveries(state.pending.len())) == (
            SyncState { phase: Phase::Sleeping, pending: Seq::empty(), ..state },
            announcements(state.stations, state.pending, state.now).push(
                SyncActionView::Sleep { seconds: POLL_INTERVAL_SECONDS },
            ),
        ),
{
    lemma_deliveries_in_order(state, state.pending.len());
}

/// The poll cycle: it owns the registry and decides, after each step that
/// the service took for it, which step comes next.
pub struct Synchronizer {
    stations: StationsCollection<StationInfo>,
    phase: Phase,
    changes: Vec<u16>,
    announced: usize,
    now: i64,
}

impl View for Synchronizer {
    type V = SyncState;

    closed spec fn view(&self) -> SyncState {
        SyncState {
            stations: self.stations@,
            phase: self.phase,
            pending: self.changes@.skip(self.announced as int),
            now: self.now,
        }
    }
}

impl Synchronizer {
    /// The registry's indexes are right, every pending change names a
    /// station, and while a message is being delivered there is a change
    /// that it is for.
    pub closed spec fn wf(&self) -> bool {
        &&& self.stations.wf()
        &&& self.announced <= self.changes@.len()
        &&& self.phase == Phase::Notifying ==> self.announced < self.changes@.len()
        &&& forall|i: int|
            0 <= i < self.changes@.len() ==> position_of_id(
                self.stations@,
                #[trigger] self.changes@[i],
            ).is_some()
    }

    /// A synchronizer for the stations of the station information feed. The
    /// first step is to fetch the status feed.
    pub fn new(station_info: &StationCollectionObj<StationInfoObj<String>>) -> (begun: (
        Self,
        SyncAction,
    ))
        ensures
            begun.0.wf(),
            begun.0@.stations == registry_of(station_info.data.stations@),
            begun.0@.phase == Phase::Fetching,
            begun.0@.pending.len() == 0,
            begun.0@.now == 0,
            begun.1@ == SyncActionView::Fetch,
    {
        let stations = build_registry(&station_info.data.stations);
        (
            Self { stations, phase: Phase::Fetching, changes: Vec::new(), announced: 0, now: 0 },
            SyncAction::Fetch,
        )
    }

    /// The registry.
    pub fn stations(&self) -> (stations: &StationsCollection<StationInfo>)
        requires
            self.wf(),
        ensures
            stations@ == self@.stations,
            stations.wf(),
    {
        &self.stations
    }

    /// Where the cycle stands.
    pub fn phase(&self) -> (phase: Phase)
        ensures
            phase == self@.phase,
    {
        self.phase
    }

    /// Whether `event` can follow the step that was asked for last.
    pub fn accepts(&self, event: &SyncEvent) -> (accepted: bool)
        ensures
            accepted == phase_accepts(self@.phase, *event),
    {
        match self.phase {
            Phase::Fetching => match event {
                SyncEvent::Fetched { .. } | SyncEvent::FetchFailed => true,
                _ => false,
            },
            Phase::Publishing => match event {
                SyncEvent::Published => true,
                _ => false,
            },
            Phase::Notifying => match event {
                SyncEvent::Notified | SyncEvent::NotifyFailed => true,
                _ => false,
            },
            Phase::Sleeping => match event {
                SyncEvent::Woke | SyncEvent::Shutdown => true,
                _ => false,
            },
            Phase::Stopped => false,
            Phase::Failed => false,
        }
    }

    fn proceed(&mut self) -> (action: SyncAction)
        requires
            old(self).wf(),
            old(self).phase != Phase::Notifying,
        ensures
            final(self).wf(),
            (final(self)@, action@) == proceed(
                old(self)@.stations,
                old(self)@.pending,
                old(self)@.now,
            ),
    {
        if self.announced < self.changes.len() {
            let id: u16 = self.changes[self.announced];
            let station = self.stations.get_by_id(id).unwrap();
            let message = push_message(station.external_id, station.current_status, self.now);
            self.phase = Phase::Notifying;
            SyncAction::Notify(message)
        } else {
            self.phase = Phase::Sleeping;
            SyncAction::Sleep { seconds: POLL_INTERVAL_SECONDS }
        }
    }

    /// Takes what came of the last step and says what to do next.
    pub fn step(&mut self, event: SyncEvent) -> (action: SyncAction)
        requires
            old(self).wf(),
            phase_accepts(old(self)@.phase, event),
        ensures
            final(self).wf(),
            (final(self)@, action@) == react(old(self)@, event),
    {
        match event {
            SyncEvent::Fetched { statuses, now } => {
                let ghost before = self.stations@;
                match update_station_statuses(&mut self.stations, &statuses) {
                    Ok(changes) => {
                        proof {
                            lemma_changes_are_known(before, statuses@);
                            lemma_apply_feed_keeps_ids(before, statuses@);
                        }
                        self.changes = changes;
                        self.announced = 0;
                        self.now = now;
                        self.phase = Phase::Publishing;
                        assert(self.changes@.skip(0) =~= self.changes@);
                        SyncAction::Publish(snapshot(&self.stations, now))
                    },
                    Err(unknown) => {
                        proof {
                            let k = choose|k: int| first_unknown(before, statuses@, k);
                            assert(self.stations@ == apply_feed(before, statuses@.take(k)));
                            lemma_apply_feed_keeps_ids(before, statuses@.take(k));
                        }
                        self.phase = Phase::Failed;
                        SyncAction::Fail(
                            SyncFailure::UnknownStation { station_id: unknown.station_id },
                        )
                    },
                }
            },
            SyncEvent::FetchFailed => {
                self.phase = Phase::Failed;
                SyncAction::Fail(SyncFailure::Fetch)
            },
            SyncEvent::Published => self.proceed(),
            SyncEvent::Notified => {
                assert(self.announced < self.changes.len());
                assert(self.changes@.skip(self.announced as int).skip(1) =~= self.changes@.skip(
                    self.announced + 1,
                ));
                self.announced = self.announced + 1;
                self.phase = Phase::Publishing;
                self.proceed()
            },
            SyncEvent::NotifyFailed => {
                self.phase = Phase::Failed;
                SyncAction::Fail(SyncFailure::Notification)
            },
            SyncEvent::Woke => {
                self.phase = Phase::Fetching;
                SyncAction::Fetch
            },
            SyncEvent::Shutdown => {
                self.phase = Phase::Stopped;
                SyncAction::Stop
            },
        }
    }
}

} // verus!
