use vstd::prelude::*;

use crate::errors::TicketError;
use crate::event::Event;
use crate::ops::buy_admissible;
use crate::ops::buy_error;
use crate::ops::buy_next;
use crate::ops::close_next;
use crate::ops::settle_earnings;
use crate::ops::sponsor_error;
use crate::ops::sponsor_next;
use crate::ops::withdraw_admissible;
use crate::ops::withdraw_earnings_error;
use crate::ops::withdraw_funds_error;
use crate::ops::withdraw_next;

verus! {

/// The total of a sequence of withdrawal amounts.
pub open spec fn sum_amounts(ws: Seq<u64>) -> int
    decreases ws.len(),
{
    if ws.len() == 0 {
        0
    } else {
        ws[0] + sum_amounts(ws.drop_first())
    }
}

/// The total of a sequence of purchase quantities.
pub open spec fn total_quantity(qs: Seq<u64>) -> int
    decreases qs.len(),
{
    if qs.len() == 0 {
        0
    } else {
        qs[0] + total_quantity(qs.drop_first())
    }
}

/// The total cost of a sequence of purchases at a fixed ticket price.
pub open spec fn total_sale_cost(price: u64, qs: Seq<u64>) -> int
    decreases qs.len(),
{
    if qs.len() == 0 {
        0
    } else {
        price * qs[0] + total_sale_cost(price, qs.drop_first())
    }
}

/// The event record after a sequence of successful purchases, applied
/// in order.
pub open spec fn apply_buys(e: Event, qs: Seq<u64>) -> Event
    decreases qs.len(),
{
    if qs.len() == 0 {
        e
    } else {
        apply_buys(buy_next(e, qs[0]), qs.drop_first())
    }
}

/// Whether every purchase in the sequence meets the event-side
/// preconditions at its turn.
pub open spec fn buys_admitted(e: Event, qs: Seq<u64>) -> bool
    decreases qs.len(),
{
    if qs.len() == 0 {
        true
    } else {
        buy_admissible(e, qs[0]) && buys_admitted(buy_next(e, qs[0]), qs.drop_first())
    }
}

/// The event record after a sequence of successful organizer
/// withdrawals, applied in order.
pub open spec fn apply_withdrawals(e: Event, ws: Seq<u64>) -> Event
    decreases ws.len(),
{
    if ws.len() == 0 {
        e
    } else {
        apply_withdrawals(withdraw_next(e, ws[0]), ws.drop_first())
    }
}

/// Whether every withdrawal in the sequence is nonzero and covered by
/// the collected funds at its turn.
pub open spec fn withdrawals_admitted(e: Event, ws: Seq<u64>) -> bool
    decreases ws.len(),
{
    if ws.len() == 0 {
        true
    } else {
        withdraw_admissible(e, ws[0]) && withdrawals_admitted(
            withdraw_next(e, ws[0]),
            ws.drop_first(),
        )
    }
}

/// A sequence of admitted purchases adds its total cost to the
/// collected funds and its total quantity to the sold count, and
/// touches nothing else on the record.
pub proof fn lemma_buys_accounting(e: Event, qs: Seq<u64>)
    requires
        buys_admitted(e, qs),
    ensures
        apply_buys(e, qs).funds_collected == e.funds_collected + total_sale_cost(
            e.ticket_price,
            qs,
        ),
        apply_buys(e, qs).tickets_sold == e.tickets_sold + total_quantity(qs),
        apply_buys(e, qs).organizer == e.organizer,
        apply_buys(e, qs).name == e.name,
        apply_buys(e, qs).ticket_price == e.ticket_price,
        apply_buys(e, qs).tickets_sponsored == e.tickets_sponsored,
        apply_buys(e, qs).sponsor_earnings == e.sponsor_earnings,
        apply_buys(e, qs).is_closed == e.is_closed,
    decreases qs.len(),
{
    if qs.len() > 0 {
        lemma_buys_accounting(buy_next(e, qs[0]), qs.drop_first());
    }
}

/// A sequence of admitted withdrawals is covered in total by the
/// collected funds, removes exactly its total from them, and touches
/// nothing else on the record.
pub proof fn lemma_withdrawals_accounting(e: Event, ws: Seq<u64>)
    requires
        withdrawals_admitted(e, ws),
    ensures
        sum_amounts(ws) <= e.funds_collected,
        apply_withdrawals(e, ws).funds_collected == e.funds_collected - sum_amounts(ws),
        apply_withdrawals(e, ws).organizer == e.organizer,
        apply_withdrawals(e, ws).name == e.name,
        apply_withdrawals(e, ws).ticket_price == e.ticket_price,
        apply_withdrawals(e, ws).tickets_sponsored == e.tickets_sponsored,
        apply_withdrawals(e, ws).tickets_sold == e.tickets_sold,
        apply_withdrawals(e, ws).sponsor_earnings == e.sponsor_earnings,
        apply_withdrawals(e, ws).is_closed == e.is_closed,
    decreases ws.len(),
{
    if ws.len() > 0 {
        lemma_withdrawals_accounting(withdraw_next(e, ws[0]), ws.drop_first());
    }
}

/// LAW (sales accounting): starting from an event with nothing yet
/// collected, after any admitted sequence of purchases followed by any
/// admitted sequence of organizer withdrawals, the collected funds
/// equal the total sale cost minus the total withdrawn — and that
/// difference is never negative: the withdrawals can never exceed what
/// the sales brought in.
pub proof fn lemma_funds_conservation(e0: Event, qs: Seq<u64>, ws: Seq<u64>)
    requires
        e0.funds_collected == 0,
        buys_admitted(e0, qs),
        withdrawals_admitted(apply_buys(e0, qs), ws),
    ensures
        apply_withdrawals(apply_buys(e0, qs), ws).funds_collected == total_sale_cost(
            e0.ticket_price,
            qs,
        ) - sum_amounts(ws),
        sum_amounts(ws) <= total_sale_cost(e0.ticket_price, qs),
{
    lemma_buys_accounting(e0, qs);
    lemma_withdrawals_accounting(apply_buys(e0, qs), ws);
}

/// LAW (zero quantity rejected): a zero quantity or amount is refused
/// with `InvalidArgument` before anything else is consulted, by
/// sponsorship, purchase and organizer withdrawal alike. An earnings
/// payout takes no quantity; its degenerate case — nothing accrued — is
/// refused with `InsufficientBalance`. A refused operation mutates
/// nothing (the operations' contracts).
pub proof fn lemma_zero_quantity_rejected(e: Event, funds: u64, tickets: u64, caller: u64)
    ensures
        sponsor_error(e, funds, tickets, 0) == Some(TicketError::InvalidArgument),
        buy_error(e, funds, tickets, 0) == Some(TicketError::InvalidArgument),
        withdraw_funds_error(e, caller, funds, 0) == Some(TicketError::InvalidArgument),
        e.sponsor_earnings == 0 ==> withdraw_earnings_error(e, true, funds) == Some(
            TicketError::InsufficientBalance,
        ),
{
}

/// LAW (authorization): an organizer withdrawal of a nonzero amount by
/// anyone but the organizer is refused with `Unauthorized`, whatever
/// the balances hold. (A zero amount is refused as `InvalidArgument`
/// before authorization is consulted.)
pub proof fn lemma_withdraw_requires_organizer(
    e: Event,
    caller: u64,
    organizer_funds: u64,
    amount: u64,
)
    requires
        amount > 0,
        caller != e.organizer,
    ensures
        withdraw_funds_error(e, caller, organizer_funds, amount) == Some(TicketError::Unauthorized),
{
}

/// LAW (closure freeze, sales side): on a closed event, every
/// sponsorship or purchase of a nonzero quantity is refused with
/// `EventClosed`, whatever the custodies hold.
pub proof fn lemma_closed_rejects_sales(e: Event, funds: u64, tickets: u64, quantity: u64)
    requires
        e.is_closed,
        quantity > 0,
    ensures
        sponsor_error(e, funds, tickets, quantity) == Some(TicketError::EventClosed),
        buy_error(e, funds, tickets, quantity) == Some(TicketError::EventClosed),
{
}

/// LAW (closure freeze, withdrawal side): closure does not change any
/// withdrawal decision — funds or earnings are claimed after closure
/// exactly as they would have been before it. In particular a nonzero
/// amount covered by the collected funds, requested by the organizer
/// into a custody with room, is still owed after closure.
pub proof fn lemma_withdrawals_survive_closure(
    e: Event,
    caller: u64,
    custody: u64,
    amount: u64,
    holds_sponsor_position: bool,
)
    ensures
        withdraw_funds_error(close_next(e), caller, custody, amount) == withdraw_funds_error(
            e,
            caller,
            custody,
            amount,
        ),
        withdraw_earnings_error(close_next(e), holds_sponsor_position, custody)
            == withdraw_earnings_error(e, holds_sponsor_position, custody),
        caller == e.organizer && 0 < amount <= e.funds_collected && custody + amount <= u64::MAX
            ==> withdraw_funds_error(close_next(e), caller, custody, amount) is None,
{
}

/// LAW (overflow guard): a purchase whose cost `ticket_price * quantity`
/// does not fit the currency range is refused with `Overflow`, whatever
/// the custodies hold. (The operation's contract adds that nothing is
/// mutated.)
pub proof fn lemma_buy_overflow_guard(e: Event, funds: u64, tickets: u64, quantity: u64)
    requires
        quantity > 0,
        !e.is_closed,
        e.ticket_price * quantity > u64::MAX,
    ensures
        buy_error(e, funds, tickets, quantity) == Some(TicketError::Overflow),
{
}

/// LAW (earnings claimed once): after a successful earnings payout the
/// accrued balance is zero, so a second claim against the same accrual
/// is refused with `InsufficientBalance`.
pub proof fn lemma_earnings_claimed_once(e: Event, custody: u64)
    ensures
        withdraw_earnings_error(settle_earnings(e), true, custody) == Some(
            TicketError::InsufficientBalance,
        ),
{
}

/// LAW (supply never shrinks): no transition lowers the total ticket
/// supply `tickets_sold + tickets_sponsored`; sales and sponsorship
/// only grow it, and withdrawal, closure and settlement leave it as it
/// stands. (The two growing transitions are only ever applied within
/// their counters' range; the premises restate that.)
pub proof fn lemma_supply_monotone(e: Event, quantity: u64, amount: u64)
    requires
        e.tickets_sponsored + quantity <= u64::MAX,
        e.tickets_sold + quantity <= u64::MAX,
    ensures
        sponsor_next(e, quantity).tickets_sold + sponsor_next(e, quantity).tickets_sponsored
            >= e.tickets_sold + e.tickets_sponsored,
        buy_next(e, quantity).tickets_sold + buy_next(e, quantity).tickets_sponsored
            >= e.tickets_sold + e.tickets_sponsored,
        withdraw_next(e, amount).tickets_sold + withdraw_next(e, amount).tickets_sponsored
            == e.tickets_sold + e.tickets_sponsored,
        close_next(e).tickets_sold + close_next(e).tickets_sponsored == e.tickets_sold
            + e.tickets_sponsored,
        settle_earnings(e).tickets_sold + settle_earnings(e).tickets_sponsored == e.tickets_sold
            + e.tickets_sponsored,
{
}

/// LAW (configuration immutable): no transition — sponsorship,
/// purchase, withdrawal, closure or settlement — changes the organizer,
/// the name or the ticket price, and each preserves well-formedness.
pub proof fn lemma_config_immutable(e: Event, quantity: u64, amount: u64)
    ensures
        sponsor_next(e, quantity).organizer == e.organizer && sponsor_next(e, quantity).name
            == e.name && sponsor_next(e, quantity).ticket_price == e.ticket_price,
        buy_next(e, quantity).organizer == e.organizer && buy_next(e, quantity).name == e.name
            && buy_next(e, quantity).ticket_price == e.ticket_price,
        withdraw_next(e, amount).organizer == e.organizer && withdraw_next(e, amount).name == e.name
            && withdraw_next(e, amount).ticket_price == e.ticket_price,
        close_next(e).organizer == e.organizer && close_next(e).name == e.name && close_next(
            e,
        ).ticket_price == e.ticket_price,
        settle_earnings(e).organizer == e.organizer && settle_earnings(e).name == e.name
            && settle_earnings(e).ticket_price == e.ticket_price,
        e.wf() ==> sponsor_next(e, quantity).wf() && buy_next(e, quantity).wf() && withdraw_next(
            e,
            amount,
        ).wf() && close_next(e).wf() && settle_earnings(e).wf(),
{
}

} // verus!
