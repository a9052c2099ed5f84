use vstd::prelude::*;

verus! {

/// Upper bound on the length, in characters, of an event name.
pub const NAME_MAX: usize = 64;

/// The persistent record of one event: its immutable configuration
/// (organizer, name, ticket price) and its accounting state.
///
/// Identities are opaque account numbers, compared only for equality.
/// Currency amounts are in the smallest currency unit. `funds_collected`
/// is the escrow balance owed to the organizer (sale proceeds net of
/// withdrawals already made); `sponsor_earnings` is the escrow balance
/// owed to sponsors. All counters are unsigned and every operation
/// checks its arithmetic.
#[derive(Clone, Debug, PartialEq)]
pub struct Event {
    /// Identity entitled to withdraw sale proceeds and close the event.
    pub organizer: u64,
    /// Display name; immutable after creation.
    pub name: String,
    /// Price per ticket; immutable after creation and never zero.
    pub ticket_price: u64,
    /// Ticket units pre-allocated to sponsors.
    pub tickets_sponsored: u64,
    /// Ticket units sold for cash to buyers.
    pub tickets_sold: u64,
    /// Currency received from ticket sales, net of organizer withdrawals.
    pub funds_collected: u64,
    /// Currency owed to sponsors, accrued from paid reservations and not
    /// yet claimed.
    pub sponsor_earnings: u64,
    /// Terminal flag: once set, no further sponsorship or sale succeeds.
    pub is_closed: bool,
}

impl Event {
    /// Well-formedness of a ledger record: the name is non-empty and
    /// length-bounded, and the ticket price is nonzero. Creation
    /// establishes this and no operation disturbs it.
    pub open spec fn wf(self) -> bool {
        &&& 1 <= self.name@.len() <= NAME_MAX
        &&& self.ticket_price >= 1
    }

    /// The record a fresh event starts from: state Open, all counters
    /// and balances zero.
    pub open spec fn fresh(organizer: u64, name: String, ticket_price: u64) -> Event {
        Event {
            organizer,
            name,
            ticket_price,
            tickets_sponsored: 0,
            tickets_sold: 0,
            funds_collected: 0,
            sponsor_earnings: 0,
            is_closed: false,
        }
    }
}

} // verus!
