//! The two record shapes the registry persists, and their mathematical views.

use vstd::prelude::*;
use crate::identity::Identity;

verus! {

/// An event record: name, venue, time, and the immutable organizer.
pub struct EventAccount {
    /// Event name.
    pub name: String,
    /// Venue name.
    pub venue: String,
    /// Event timestamp, epoch seconds.
    pub time: i64,
    /// The identity that created the event; never reassigned.
    pub organizer: Identity,
}

/// The mathematical value of an event record.
pub ghost struct EventView {
    pub name: Seq<char>,
    pub venue: Seq<char>,
    pub time: int,
    pub organizer: Seq<u8>,
}

impl View for EventAccount {
    type V = EventView;

    open spec fn view(&self) -> EventView {
        EventView {
            name: self.name@,
            venue: self.venue@,
            time: self.time as int,
            organizer: self.organizer@,
        }
    }
}

/// A ticket record. The `event` field holds the owning event's address at
/// mint time; a transfer overwrites it with the new holder's identity,
/// conflating the event link with the current holder. That is the recorded
/// behaviour of this registry, kept as it stands.
pub struct TicketAccount {
    /// The associated event's address; overwritten on transfer.
    pub event: Identity,
    /// Seat information.
    pub seat: String,
    /// Ticket category, such as general admission.
    pub category: String,
    /// One-way check-in flag: false at mint, set true at most once.
    pub scanned: bool,
}

/// The mathematical value of a ticket record.
pub ghost struct TicketView {
    pub event: Seq<u8>,
    pub seat: Seq<char>,
    pub category: Seq<char>,
    pub scanned: bool,
}

impl View for TicketAccount {
    type V = TicketView;

    open spec fn view(&self) -> TicketView {
        TicketView {
            event: self.event@,
            seat: self.seat@,
            category: self.category@,
            scanned: self.scanned,
        }
    }
}

} // verus!
