use vstd::prelude::*;

use crate::custody::mint_units;
use crate::errors::TicketError;
use crate::event::Event;
use crate::event::NAME_MAX;

verus! {

/// The cost of `quantity` tickets of event `e`, in the smallest currency
/// unit, computed without any overflow cut-off.
pub open spec fn cost_of(e: Event, quantity: u64) -> int {
    e.ticket_price * quantity
}

// ------------------------------------------------------------------
// CreateEvent
// ------------------------------------------------------------------

/// The decision of `create_event`: `None` when creation is owed, else
/// exactly the error it is refused with. Checks run in this order:
/// argument validation (name, then price), then slot occupancy.
pub open spec fn create_error(slot: Option<Event>, name: Seq<char>, ticket_price: u64) -> Option<
    TicketError,
> {
    if name.len() == 0 || name.len() > NAME_MAX {
        Some(TicketError::InvalidArgument)
    } else if ticket_price == 0 {
        Some(TicketError::InvalidArgument)
    } else if slot is Some {
        Some(TicketError::AlreadyExists)
    } else {
        None
    }
}

/// Create a new event record owned by `organizer`, in state Open with
/// all counters zero.
///
/// `slot` is what the persistence layer found under the target identity:
/// creation is refused with `AlreadyExists` when a record already
/// occupies it. An empty or over-long name, or a zero ticket price, is
/// refused with `InvalidArgument`.
pub fn create_event(slot: &Option<Event>, organizer: u64, name: String, ticket_price: u64) -> (r:
    Result<Event, TicketError>)
    ensures
        match create_error(*slot, name@, ticket_price) {
            Some(err) => r == Err::<Event, TicketError>(err),
            None => {
                &&& r == Ok::<Event, TicketError>(Event::fresh(organizer, name, ticket_price))
                &&& (r matches Ok(ev) && ev.wf())
            },
        },
{
    let name_len = name.as_str().unicode_len();
    if name_len == 0 || name_len > NAME_MAX {
        return Err(TicketError::InvalidArgument);
    }
    if ticket_price == 0 {
        return Err(TicketError::InvalidArgument);
    }
    if slot.is_some() {
        return Err(TicketError::AlreadyExists);
    }
    Ok(
        Event {
            organizer,
            name,
            ticket_price,
            tickets_sponsored: 0,
            tickets_sold: 0,
            funds_collected: 0,
            sponsor_earnings: 0,
            is_closed: false,
        },
    )
}

// ------------------------------------------------------------------
// SponsorEvent
// ------------------------------------------------------------------

/// The decision of `sponsor_event`: `None` when the reservation is owed,
/// else exactly the error it is refused with. Checks run in this order:
/// argument validation, lifecycle, event-side overflow, the sponsor's
/// funds, the mint step.
pub open spec fn sponsor_error(
    e: Event,
    sponsor_funds: u64,
    sponsor_tickets: u64,
    quantity: u64,
) -> Option<TicketError> {
    if quantity == 0 {
        Some(TicketError::InvalidArgument)
    } else if e.is_closed {
        Some(TicketError::EventClosed)
    } else if cost_of(e, quantity) > u64::MAX {
        Some(TicketError::Overflow)
    } else if e.tickets_sponsored + quantity > u64::MAX {
        Some(TicketError::Overflow)
    } else if e.sponsor_earnings + cost_of(e, quantity) > u64::MAX {
        Some(TicketError::Overflow)
    } else if sponsor_funds < cost_of(e, quantity) {
        Some(TicketError::InsufficientFunds)
    } else if sponsor_tickets + quantity > u64::MAX {
        Some(TicketError::MintFailure)
    } else {
        None
    }
}

/// How a successful sponsorship changes the event record: the sponsored
/// count grows by the quantity and the reservation price accrues to the
/// sponsors' earnings balance. Everything else is untouched.
pub open spec fn sponsor_next(e: Event, quantity: u64) -> Event {
    Event {
        tickets_sponsored: (e.tickets_sponsored + quantity) as u64,
        sponsor_earnings: (e.sponsor_earnings + cost_of(e, quantity)) as u64,
        ..e
    }
}

/// Sponsor `quantity` tickets of an Open event as a paid reservation:
/// the sponsor pays `ticket_price * quantity` into escrow, that amount
/// accrues to `sponsor_earnings`, the sponsored count grows, and the
/// ticket units are minted to the sponsor's holding. Any identity may
/// sponsor. A failed call leaves the event and both custodies untouched.
pub fn sponsor_event(
    event: &mut Event,
    sponsor_funds: &mut u64,
    sponsor_tickets: &mut u64,
    quantity: u64,
) -> (r: Result<(), TicketError>)
    ensures
        match sponsor_error(*old(event), *old(sponsor_funds), *old(sponsor_tickets), quantity) {
            Some(err) => {
                &&& r == Err::<(), TicketError>(err)
                &&& *final(event) == *old(event)
                &&& *final(sponsor_funds) == *old(sponsor_funds)
                &&& *final(sponsor_tickets) == *old(sponsor_tickets)
            },
            None => {
                &&& r == Ok::<(), TicketError>(())
                &&& *final(event) == sponsor_next(*old(event), quantity)
                &&& *final(sponsor_funds) == *old(sponsor_funds) - cost_of(*old(event), quantity)
                &&& *final(sponsor_tickets) == *old(sponsor_tickets) + quantity
            },
        },
{
    if quantity == 0 {
        return Err(TicketError::InvalidArgument);
    }
    if event.is_closed {
        return Err(TicketError::EventClosed);
    }
    let cost = match event.ticket_price.checked_mul(quantity) {
        Some(c) => c,
        None => {
            return Err(TicketError::Overflow);
        },
    };
    let new_sponsored = match event.tickets_sponsored.checked_add(quantity) {
        Some(v) => v,
        None => {
            return Err(TicketError::Overflow);
        },
    };
    let new_earnings = match event.sponsor_earnings.checked_add(cost) {
        Some(v) => v,
        None => {
            return Err(TicketError::Overflow);
        },
    };
    if *sponsor_funds < cost {
        return Err(TicketError::InsufficientFunds);
    }
    match mint_units(sponsor_tickets, quantity) {
        Ok(()) => {},
        Err(err) => {
            return Err(err);
        },
    }
    *sponsor_funds = *sponsor_funds - cost;
    event.tickets_sponsored = new_sponsored;
    event.sponsor_earnings = new_earnings;
    Ok(())
}

// ------------------------------------------------------------------
// BuyTickets
// ------------------------------------------------------------------

/// The decision of `buy_tickets`: `None` when the sale is owed, else
/// exactly the error it is refused with. Checks run in this order:
/// argument validation, lifecycle, event-side overflow, the buyer's
/// funds (the currency transfer), the mint step.
pub open spec fn buy_error(e: Event, buyer_funds: u64, buyer_tickets: u64, quantity: u64) -> Option<
    TicketError,
> {
    if quantity == 0 {
        Some(TicketError::InvalidArgument)
    } else if e.is_closed {
        Some(TicketError::EventClosed)
    } else if cost_of(e, quantity) > u64::MAX {
        Some(TicketError::Overflow)
    } else if e.tickets_sold + quantity > u64::MAX {
        Some(TicketError::Overflow)
    } else if e.funds_collected + cost_of(e, quantity) > u64::MAX {
        Some(TicketError::Overflow)
    } else if buyer_funds < cost_of(e, quantity) {
        Some(TicketError::InsufficientFunds)
    } else if buyer_tickets + quantity > u64::MAX {
        Some(TicketError::MintFailure)
    } else {
        None
    }
}

/// The event-side preconditions of a purchase: those checks of
/// `buy_error` that read the event record alone, independent of any
/// custody.
pub open spec fn buy_admissible(e: Event, quantity: u64) -> bool {
    &&& quantity > 0
    &&& !e.is_closed
    &&& cost_of(e, quantity) <= u64::MAX
    &&& e.tickets_sold + quantity <= u64::MAX
    &&& e.funds_collected + cost_of(e, quantity) <= u64::MAX
}

/// How a successful purchase changes the event record: the sold count
/// grows by the quantity and the full cost accrues to the collected
/// funds. Everything else is untouched.
pub open spec fn buy_next(e: Event, quantity: u64) -> Event {
    Event {
        tickets_sold: (e.tickets_sold + quantity) as u64,
        funds_collected: (e.funds_collected + cost_of(e, quantity)) as u64,
        ..e
    }
}

/// Buy `quantity` tickets of an Open event: the buyer pays
/// `ticket_price * quantity` from their custody into escrow, the sold
/// count and the collected funds grow accordingly, and the ticket units
/// are minted to the buyer's holding — as one atomic unit. A failed call
/// leaves the event and both custodies untouched.
pub fn buy_tickets(
    event: &mut Event,
    buyer_funds: &mut u64,
    buyer_tickets: &mut u64,
    quantity: u64,
) -> (r: Result<(), TicketError>)
    ensures
        match buy_error(*old(event), *old(buyer_funds), *old(buyer_tickets), quantity) {
            Some(err) => {
                &&& r == Err::<(), TicketError>(err)
                &&& *final(event) == *old(event)
                &&& *final(buyer_funds) == *old(buyer_funds)
                &&& *final(buyer_tickets) == *old(buyer_tickets)
            },
            None => {
                &&& r == Ok::<(), TicketError>(())
                &&& *final(event) == buy_next(*old(event), quantity)
                &&& *final(buyer_funds) == *old(buyer_funds) - cost_of(*old(event), quantity)
                &&& *final(buyer_tickets) == *old(buyer_tickets) + quantity
            },
        },
{
    if quantity == 0 {
        return Err(TicketError::InvalidArgument);
    }
    if event.is_closed {
        return Err(TicketError::EventClosed);
    }
    let cost = match event.ticket_price.checked_mul(quantity) {
        Some(c) => c,
        None => {
            return Err(TicketError::Overflow);
        },
    };
    let new_sold = match event.tickets_sold.checked_add(quantity) {
        Some(v) => v,
        None => {
            return Err(TicketError::Overflow);
        },
    };
    let new_funds = match event.funds_collected.checked_add(cost) {
        Some(v) => v,
        None => {
            return Err(TicketError::Overflow);
        },
    };
    if *buyer_funds < cost {
        return Err(TicketError::InsufficientFunds);
    }
    match mint_units(buyer_tickets, quantity) {
        Ok(()) => {},
        Err(err) => {
            return Err(err);
        },
    }
    *buyer_funds = *buyer_funds - cost;
    event.tickets_sold = new_sold;
    event.funds_collected = new_funds;
    Ok(())
}

// ------------------------------------------------------------------
// WithdrawFunds
// ------------------------------------------------------------------

/// The decision of `withdraw_funds`: `None` when the withdrawal is owed,
/// else exactly the error it is refused with. Checks run in this order:
/// argument validation, authorization, the accrued balance, the
/// transfer step. The lifecycle flag is not consulted: withdrawal is
/// valid while Open and after closure alike.
pub open spec fn withdraw_funds_error(
    e: Event,
    caller: u64,
    organizer_funds: u64,
    amount: u64,
) -> Option<TicketError> {
    if amount == 0 {
        Some(TicketError::InvalidArgument)
    } else if caller != e.organizer {
        Some(TicketError::Unauthorized)
    } else if amount > e.funds_collected {
        Some(TicketError::InsufficientBalance)
    } else if organizer_funds + amount > u64::MAX {
        Some(TicketError::TransferFailure)
    } else {
        None
    }
}

/// The event-side preconditions of an organizer withdrawal: a nonzero
/// amount covered by the collected funds.
pub open spec fn withdraw_admissible(e: Event, amount: u64) -> bool {
    0 < amount <= e.funds_collected
}

/// How a successful withdrawal changes the event record: the collected
/// funds shrink by the amount. Everything else is untouched.
pub open spec fn withdraw_next(e: Event, amount: u64) -> Event {
    Event { funds_collected: (e.funds_collected - amount) as u64, ..e }
}

/// Withdraw `amount` of the collected sale proceeds to the organizer's
/// custody. Only the organizer may withdraw, the amount must be covered
/// by `funds_collected`, and the balance never goes below zero. A failed
/// call leaves the event and the custody untouched.
pub fn withdraw_funds(
    event: &mut Event,
    caller: u64,
    organizer_funds: &mut u64,
    amount: u64,
) -> (r: Result<(), TicketError>)
    ensures
        match withdraw_funds_error(*old(event), caller, *old(organizer_funds), amount) {
            Some(err) => {
                &&& r == Err::<(), TicketError>(err)
                &&& *final(event) == *old(event)
                &&& *final(organizer_funds) == *old(organizer_funds)
            },
            None => {
                &&& r == Ok::<(), TicketError>(())
                &&& *final(event) == withdraw_next(*old(event), amount)
                &&& *final(organizer_funds) == *old(organizer_funds) + amount
            },
        },
{
    if amount == 0 {
        return Err(TicketError::InvalidArgument);
    }
    if caller != event.organizer {
        return Err(TicketError::Unauthorized);
    }
    if amount > event.funds_collected {
        return Err(TicketError::InsufficientBalance);
    }
    let new_custody = match organizer_funds.checked_add(amount) {
        Some(v) => v,
        None => {
            return Err(TicketError::TransferFailure);
        },
    };
    event.funds_collected = event.funds_collected - amount;
    *organizer_funds = new_custody;
    Ok(())
}

// ------------------------------------------------------------------
// CloseEvent
// ------------------------------------------------------------------

/// The decision of `close_event`: `None` when closure is owed, else
/// exactly the error it is refused with. Authorization is checked
/// before the lifecycle flag.
pub open spec fn close_error(e: Event, caller: u64) -> Option<TicketError> {
    if caller != e.organizer {
        Some(TicketError::Unauthorized)
    } else if e.is_closed {
        Some(TicketError::AlreadyClosed)
    } else {
        None
    }
}

/// How closure changes the event record: the terminal flag is set and
/// everything else — name, price, counters, balances — is frozen as it
/// stands.
pub open spec fn close_next(e: Event) -> Event {
    Event { is_closed: true, ..e }
}

/// Close an Open event. Only the organizer may close, and only once:
/// this is a one-way transition. Accrued balances stay withdrawable
/// afterwards. A failed call leaves the event untouched.
pub fn close_event(event: &mut Event, caller: u64) -> (r: Result<(), TicketError>)
    ensures
        match close_error(*old(event), caller) {
            Some(err) => {
                &&& r == Err::<(), TicketError>(err)
                &&& *final(event) == *old(event)
            },
            None => {
                &&& r == Ok::<(), TicketError>(())
                &&& *final(event) == close_next(*old(event))
            },
        },
{
    if caller != event.organizer {
        return Err(TicketError::Unauthorized);
    }
    if event.is_closed {
        return Err(TicketError::AlreadyClosed);
    }
    event.is_closed = true;
    Ok(())
}

// ------------------------------------------------------------------
// WithdrawEarnings
// ------------------------------------------------------------------

/// The decision of `withdraw_earnings`: `None` when the payout is owed,
/// else exactly the error it is refused with. Checks run in this order:
/// authorization (the caller must hold a sponsor position), the accrued
/// balance, the transfer step. The lifecycle flag is not consulted:
/// earnings may be claimed before or after closure, but never twice.
pub open spec fn withdraw_earnings_error(
    e: Event,
    holds_sponsor_position: bool,
    sponsor_funds: u64,
) -> Option<TicketError> {
    if !holds_sponsor_position {
        Some(TicketError::Unauthorized)
    } else if e.sponsor_earnings == 0 {
        Some(TicketError::InsufficientBalance)
    } else if sponsor_funds + e.sponsor_earnings > u64::MAX {
        Some(TicketError::TransferFailure)
    } else {
        None
    }
}

/// How a successful earnings payout changes the event record: the
/// sponsors' earnings balance is zeroed. Everything else is untouched.
pub open spec fn settle_earnings(e: Event) -> Event {
    Event { sponsor_earnings: 0, ..e }
}

/// Pay out the full accrued `sponsor_earnings` balance to the sponsor's
/// custody and zero it, so that the same accrual can never be claimed
/// twice. `holds_sponsor_position` says whether the caller holds a
/// sponsor position, as the capability check established it. On success
/// the amount paid is returned. A failed call leaves the event and the custody untouched.
pub fn withdraw_earnings(
    event: &mut Event,
    holds_sponsor_position: bool,
    sponsor_funds: &mut u64,
) -> (r: Result<u64, TicketError>)
    ensures
        match withdraw_earnings_error(*old(event), holds_sponsor_position, *old(sponsor_funds)) {
            Some(err) => {
                &&& r == Err::<u64, TicketError>(err)
                &&& *final(event) == *old(event)
                &&& *final(sponsor_funds) == *old(sponsor_funds)
            },
            None => {
                &&& r == Ok::<u64, TicketError>(old(event).sponsor_earnings)
                &&& *final(event) == settle_earnings(*old(event))
                &&& *final(sponsor_funds) == *old(sponsor_funds) + old(event).sponsor_earnings
            },
        },
{
    if !holds_sponsor_position {
        return Err(TicketError::Unauthorized);
    }
    if event.sponsor_earnings == 0 {
        return Err(TicketError::InsufficientBalance);
    }
    let payout = event.sponsor_earnings;
    let new_custody = match sponsor_funds.checked_add(payout) {
        Some(v) => v,
        None => {
            return Err(TicketError::TransferFailure);
        },
    };
    event.sponsor_earnings = 0;
    *sponsor_funds = new_custody;
    Ok(payout)
}

} // verus!
