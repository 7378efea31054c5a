use crate::error::{PollError, TransportError};
use crate::events::{
    announcement, announcements, arrivals, departures, event_views, Event, EventModel,
};
use crate::identifier::{all_normalized, normalized_all};
use crate::model::{IpNeighborStatusV4, Response};
use crate::presence::{
    arrived, departed, diff, diff_of_same_set_is_empty, first_occurrences, Mac, Snapshot,
};
use vstd::prelude::*;

verus! {

/// What a request for the neighbour table came back with.
pub type NeighborReply = Result<Response<Vec<IpNeighborStatusV4>>, TransportError>;

/// The identifier that a row of the neighbour table carries, if any.
pub open spec fn mac_of(row: IpNeighborStatusV4) -> Option<Mac> {
    match row.mac {
        Some(mac) => Some(mac@),
        None => None,
    }
}

/// The identifiers that a neighbour table lists, in row order. Rows without
/// a MAC address are passed over.
pub open spec fn listed_macs(rows: Seq<IpNeighborStatusV4>) -> Seq<Mac> {
    rows.filter_map(|row: IpNeighborStatusV4| mac_of(row))
}

/// The snapshot that a reply amounts to, or why it amounts to none. The
/// snapshot holds the devices that the rows name, each once and in normal
/// form.
pub open spec fn polled(reply: NeighborReply) -> Result<Seq<Mac>, PollError> {
    match reply {
        Err(failure) => Err(PollError::Transport(failure)),
        Ok(response) => match response.data {
            None => Err(PollError::UnexpectedResponse),
            Some(rows) => Ok(first_occurrences(normalized_all(listed_macs(rows@)))),
        },
    }
}

/// The events that a change of snapshot gives rise to: every departure, then
/// every arrival.
pub open spec fn presence_events(previous: Seq<Mac>, current: Seq<Mac>) -> Seq<EventModel> {
    departures(departed(previous, current)) + arrivals(arrived(previous, current))
}

/// The snapshot that a watcher retains after a poll: the new one, or on a
/// failed poll the one it had.
pub open spec fn retained(known: Seq<Mac>, outcome: Result<Seq<Mac>, PollError>) -> Seq<Mac> {
    match outcome {
        Ok(current) => current,
        Err(_) => known,
    }
}

/// The events that a watcher emits for a poll: those of the change, or on a
/// failed poll none.
pub open spec fn emitted(known: Seq<Mac>, outcome: Result<Seq<Mac>, PollError>) -> Seq<
    EventModel,
> {
    match outcome {
        Ok(current) => presence_events(known, current),
        Err(_) => Seq::empty(),
    }
}

/// The snapshot that a watcher retains after a run of polls, oldest first.
pub open spec fn retained_after(known: Seq<Mac>, outcomes: Seq<Result<Seq<Mac>, PollError>>) -> Seq<
    Mac,
>
    decreases outcomes.len(),
{
    if outcomes.len() == 0 {
        known
    } else {
        retained(retained_after(known, outcomes.drop_last()), outcomes.last())
    }
}

/// The snapshot of the last poll of a run that succeeded, if one did.
pub open spec fn last_success(outcomes: Seq<Result<Seq<Mac>, PollError>>) -> Option<Seq<Mac>>
    decreases outcomes.len(),
{
    if outcomes.len() == 0 {
        None
    } else {
        match outcomes.last() {
            Ok(current) => Some(current),
            Err(_) => last_success(outcomes.drop_last()),
        }
    }
}

/// What one poll cycle produced.
#[derive(Debug)]
pub struct Cycle {
    /// The events to hand to the consumers, in this order.
    pub events: Vec<Event>,
    /// Why the cycle was skipped, where it was.
    pub failure: Option<PollError>,
}

/// The MAC addresses of a neighbour table, in row order.
pub fn listed(rows: &Vec<IpNeighborStatusV4>) -> (macs: Vec<String>)
    ensures
        macs.deep_view() == listed_macs(rows@),
{
    let mut macs: Vec<String> = Vec::new();
    let mut i: usize = 0;
    proof {
        assert(rows@.take(0) =~= Seq::<IpNeighborStatusV4>::empty());
        assert(macs.deep_view() =~= Seq::<Mac>::empty());
    }
    while i < rows.len()
        invariant
            i <= rows.len(),
            macs.deep_view() == listed_macs(rows@.take(i as int)),
        decreases rows.len() - i,
    {
        let ghost before = macs.deep_view();
        proof {
            rows@.lemma_filter_map_take_succ(|row: IpNeighborStatusV4| mac_of(row), i as int);
        }
        match &rows[i].mac {
            Some(mac) => {
                macs.push(mac.clone());
                assert(macs.deep_view() =~= before + seq![mac@]);
            },
            None => {
                assert(before + Seq::<Mac>::empty() =~= before);
            },
        }
        i += 1;
    }
    proof {
        assert(rows@.take(rows.len() as int) =~= rows@);
    }
    macs
}

/// Appends one event for each identifier of `ids`: arrivals or departures.
fn push_events(events: &mut Vec<Event>, ids: &Vec<String>, arriving: bool)
    ensures
        event_views(final(events)@) == event_views(old(events)@) + announcements(
            ids.deep_view(),
            arriving,
        ),
{
    let mut i: usize = 0;
    proof {
        assert(event_views(events@) =~= event_views(old(events)@) + announcements(
            ids.deep_view().take(0),
            arriving,
        ));
    }
    while i < ids.len()
        invariant
            i <= ids.len(),
            event_views(events@) == event_views(old(events)@) + announcements(
                ids.deep_view().take(i as int),
                arriving,
            ),
        decreases ids.len() - i,
    {
        let ghost before = events@;
        let id = ids[i].clone();
        let event = if arriving {
            Event::DeviceArrived(id)
        } else {
            Event::DeviceLeft(id)
        };
        events.push(event);
        proof {
            let told = announcement(ids[i as int]@, arriving);
            assert(ids.deep_view().take(i + 1) =~= ids.deep_view().take(i as int).push(
                ids[i as int]@,
            ));
            assert(event_views(events@) =~= event_views(before).push(told));
            assert(announcements(ids.deep_view().take(i + 1), arriving) =~= announcements(
                ids.deep_view().take(i as int),
                arriving,
            ).push(told));
        }
        i += 1;
    }
    proof {
        assert(ids.deep_view().take(ids.len() as int) =~= ids.deep_view());
    }
}

/// Watches which devices are on the network. It retains the snapshot of the
/// last successful poll and reports each later poll as arrivals and
/// departures against it.
#[derive(Debug)]
pub struct DeviceProvider {
    current_devices: Snapshot,
}

impl DeviceProvider {
    /// The identifiers of the retained snapshot, each once.
    pub closed spec fn known(&self) -> Seq<Mac> {
        self.current_devices.ids()
    }

    /// A watcher that has seen no device yet. Its first successful poll
    /// reports every device present as an arrival.
    pub fn new() -> (provider: Self)
        ensures
            provider.known() == Seq::<Mac>::empty(),
    {
        DeviceProvider { current_devices: Snapshot::new() }
    }

    /// The retained snapshot.
    pub fn current_devices(&self) -> (snapshot: &Snapshot)
        ensures
            snapshot.ids() == self.known(),
    {
        &self.current_devices
    }

    /// Reads a reply to a request for the neighbour table: the set of the
    /// devices that it lists, each MAC address in its normal form, or the
    /// reason why the poll counts as failed. Rows that differ only in the
    /// case of their addresses name one device.
    pub fn list_devices(reply: NeighborReply) -> (devices: Result<Snapshot, PollError>)
        ensures
            match polled(reply) {
                Ok(ids) => devices is Ok && devices->Ok_0.ids() == ids,
                Err(failure) => devices == Err::<Snapshot, PollError>(failure),
            },
            devices matches Ok(snapshot) ==> {
                &&& reply matches Ok(response) && response.data matches Some(rows)
                    && snapshot@ == normalized_all(listed_macs(rows@)).to_set()
                &&& snapshot.ids().no_duplicates()
                &&& all_normalized(snapshot.ids())
            },
    {
        match reply {
            Err(failure) => Err(PollError::Transport(failure)),
            Ok(response) => match response.data {
                None => Err(PollError::UnexpectedResponse),
                Some(rows) => {
                    let macs = listed(&rows);
                    Ok(Snapshot::from_macs(&macs))
                },
            },
        }
    }

    /// Takes in the outcome of one poll. A successful poll is compared with
    /// the retained snapshot, reported as departures followed by arrivals,
    /// and retained in its place. A failed poll changes nothing and reports
    /// nothing but its failure.
    pub fn hoist(&mut self, reply: NeighborReply) -> (cycle: Cycle)
        ensures
            final(self).known() == retained(old(self).known(), polled(reply)),
            event_views(cycle.events@) == emitted(old(self).known(), polled(reply)),
            cycle.failure == match polled(reply) {
                Ok(_) => None,
                Err(failure) => Some(failure),
            },
            polled(reply) is Err ==> cycle.events@.len() == 0,
    {
        match Self::list_devices(reply) {
            Err(failure) => {
                let events: Vec<Event> = Vec::new();
                assert(event_views(events@) =~= Seq::<EventModel>::empty());
                Cycle { events, failure: Some(failure) }
            },
            Ok(current) => {
                let change = diff(&self.current_devices, &current);
                let mut events: Vec<Event> = Vec::new();
                assert(event_views(events@) =~= Seq::<EventModel>::empty());
                push_events(&mut events, &change.departed, false);
                push_events(&mut events, &change.arrived, true);
                assert(event_views(events@) =~= presence_events(
                    self.current_devices.ids(),
                    current.ids(),
                ));
                self.current_devices = current;
                Cycle { events, failure: None }
            },
        }
    }
}

/// After a successful poll, a poll that finds the same set of devices emits
/// nothing, in whatever order the devices are listed.
pub proof fn unchanged_poll_is_silent(known: Seq<Mac>, current: Seq<Mac>, next: Seq<Mac>)
    requires
        next.to_set() == current.to_set(),
    ensures
        emitted(
            retained(known, Ok::<Seq<Mac>, PollError>(current)),
            Ok::<Seq<Mac>, PollError>(next),
        ) == Seq::<EventModel>::empty(),
{
    diff_of_same_set_is_empty(current, next);
    assert(presence_events(current, next) =~= Seq::<EventModel>::empty());
}

/// A failed poll leaves the retained snapshot as it was and emits nothing.
pub proof fn failed_poll_changes_nothing(known: Seq<Mac>, failure: PollError)
    ensures
        retained(known, Err::<Seq<Mac>, PollError>(failure)) == known,
        emitted(known, Err::<Seq<Mac>, PollError>(failure)) == Seq::<EventModel>::empty(),
{
}

/// After any run of polls the retained snapshot is that of the last poll
/// that succeeded, or, where none did, the one that the run began with: a
/// poll is only ever compared with the successful poll before it.
pub proof fn retained_is_last_success(
    known: Seq<Mac>,
    outcomes: Seq<Result<Seq<Mac>, PollError>>,
)
    ensures
        retained_after(known, outcomes) == match last_success(outcomes) {
            Some(current) => current,
            None => known,
        },
    decreases outcomes.len(),
{
    if outcomes.len() > 0 {
        retained_is_last_success(known, outcomes.drop_last());
    }
}

} // verus!
