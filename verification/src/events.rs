use crate::model::SmsMessage;
use crate::presence::Mac;
use vstd::prelude::*;

verus! {

/// What a watcher reports to its consumers.
#[derive(Debug, Clone, PartialEq, Eq)]
pub enum Event {
    /// A device that was absent at the previous poll is present now.
    DeviceArrived(String),
    /// A device that was present at the previous poll is absent now.
    DeviceLeft(String),
    /// A text message has come in.
    MessageReceived(SmsMessage),
}

/// The mathematical model of an [`Event`].
pub enum EventModel {
    DeviceArrived(Mac),
    DeviceLeft(Mac),
    MessageReceived(SmsMessage),
}

impl View for Event {
    type V = EventModel;

    open spec fn view(&self) -> EventModel {
        match *self {
            Event::DeviceArrived(id) => EventModel::DeviceArrived(id@),
            Event::DeviceLeft(id) => EventModel::DeviceLeft(id@),
            Event::MessageReceived(message) => EventModel::MessageReceived(message),
        }
    }
}

/// The models of a list of events, in order.
pub open spec fn event_views(events: Seq<Event>) -> Seq<EventModel> {
    events.map_values(|event: Event| event@)
}

/// The event that tells of one device: an arrival or a departure.
pub open spec fn announcement(id: Mac, arriving: bool) -> EventModel {
    if arriving {
        EventModel::DeviceArrived(id)
    } else {
        EventModel::DeviceLeft(id)
    }
}

/// One arrival for each identifier, in order.
pub open spec fn arrivals(ids: Seq<Mac>) -> Seq<EventModel> {
    ids.map_values(|id: Mac| announcement(id, true))
}

/// One departure for each identifier, in order.
pub open spec fn departures(ids: Seq<Mac>) -> Seq<EventModel> {
    ids.map_values(|id: Mac| announcement(id, false))
}

/// One event for each identifier, in order: arrivals or departures.
pub open spec fn announcements(ids: Seq<Mac>, arriving: bool) -> Seq<EventModel> {
    if arriving {
        arrivals(ids)
    } else {
        departures(ids)
    }
}

} // verus!
