use event_manager::errors::TicketError;
use event_manager::event::Event;
use event_manager::ops::buy_tickets;
use event_manager::ops::close_event;
use event_manager::ops::create_event;
use event_manager::ops::sponsor_event;
use event_manager::ops::withdraw_earnings;
use event_manager::ops::withdraw_funds;

const ORGANIZER: u64 = 7;

fn concert() -> Event {
    create_event(&None, ORGANIZER, "Concert".to_string(), 100).unwrap()
}

#[test]
fn create_starts_open_with_zero_counters() {
    let ev = concert();
    assert_eq!(ev.organizer, ORGANIZER);
    assert_eq!(ev.name, "Concert");
    assert_eq!(ev.ticket_price, 100);
    assert_eq!(ev.tickets_sponsored, 0);
    assert_eq!(ev.tickets_sold, 0);
    assert_eq!(ev.funds_collected, 0);
    assert_eq!(ev.sponsor_earnings, 0);
    assert!(!ev.is_closed);
}

#[test]
fn create_rejects_empty_name() {
    let r = create_event(&None, ORGANIZER, String::new(), 100);
    assert_eq!(r, Err(TicketError::InvalidArgument));
}

#[test]
fn create_rejects_over_long_name() {
    let long_name: String = "x".repeat(65);
    let r = create_event(&None, ORGANIZER, long_name, 100);
    assert_eq!(r, Err(TicketError::InvalidArgument));
}

#[test]
fn create_accepts_name_at_the_bound() {
    let name: String = "x".repeat(64);
    let r = create_event(&None, ORGANIZER, name, 100);
    assert!(r.is_ok());
}

#[test]
fn create_rejects_zero_price() {
    let r = create_event(&None, ORGANIZER, "Concert".to_string(), 0);
    assert_eq!(r, Err(TicketError::InvalidArgument));
}

#[test]
fn create_rejects_occupied_slot() {
    let existing = concert();
    let r = create_event(&Some(existing), ORGANIZER, "Concert".to_string(), 100);
    assert_eq!(r, Err(TicketError::AlreadyExists));
}

#[test]
fn close_is_for_the_organizer_alone() {
    let mut ev = concert();
    assert_eq!(close_event(&mut ev, ORGANIZER + 1), Err(TicketError::Unauthorized));
    assert!(!ev.is_closed);
    assert_eq!(close_event(&mut ev, ORGANIZER), Ok(()));
    assert!(ev.is_closed);
}

#[test]
fn close_is_one_way_and_refused_twice() {
    let mut ev = concert();
    assert_eq!(close_event(&mut ev, ORGANIZER), Ok(()));
    assert_eq!(close_event(&mut ev, ORGANIZER), Err(TicketError::AlreadyClosed));
    assert!(ev.is_closed);
}

#[test]
fn sponsor_on_closed_event_fails_event_closed() {
    let mut ev = concert();
    close_event(&mut ev, ORGANIZER).unwrap();
    let mut sponsor_funds: u64 = 10_000;
    let mut sponsor_tickets: u64 = 0;
    let r = sponsor_event(&mut ev, &mut sponsor_funds, &mut sponsor_tickets, 5);
    assert_eq!(r, Err(TicketError::EventClosed));
    assert_eq!(sponsor_funds, 10_000);
    assert_eq!(sponsor_tickets, 0);
    assert_eq!(ev.tickets_sponsored, 0);
}

#[test]
fn closure_freezes_sales_but_not_withdrawals() {
    let mut ev = concert();
    let mut buyer_funds: u64 = 1_000;
    let mut buyer_tickets: u64 = 0;
    buy_tickets(&mut ev, &mut buyer_funds, &mut buyer_tickets, 3).unwrap();
    let mut sponsor_funds: u64 = 1_000;
    let mut sponsor_tickets: u64 = 0;
    sponsor_event(&mut ev, &mut sponsor_funds, &mut sponsor_tickets, 2).unwrap();

    close_event(&mut ev, ORGANIZER).unwrap();

    let r_buy = buy_tickets(&mut ev, &mut buyer_funds, &mut buyer_tickets, 1);
    assert_eq!(r_buy, Err(TicketError::EventClosed));
    let r_sponsor = sponsor_event(&mut ev, &mut sponsor_funds, &mut sponsor_tickets, 1);
    assert_eq!(r_sponsor, Err(TicketError::EventClosed));

    let mut organizer_funds: u64 = 0;
    assert_eq!(withdraw_funds(&mut ev, ORGANIZER, &mut organizer_funds, 300), Ok(()));
    assert_eq!(organizer_funds, 300);
    assert_eq!(ev.funds_collected, 0);

    assert_eq!(withdraw_earnings(&mut ev, true, &mut sponsor_funds), Ok(200));
    assert_eq!(ev.sponsor_earnings, 0);
    assert_eq!(sponsor_funds, 1_000);
}

#[test]
fn earnings_require_a_sponsor_position() {
    let mut ev = concert();
    let mut sponsor_funds: u64 = 1_000;
    let mut sponsor_tickets: u64 = 0;
    sponsor_event(&mut ev, &mut sponsor_funds, &mut sponsor_tickets, 1).unwrap();
    let r = withdraw_earnings(&mut ev, false, &mut sponsor_funds);
    assert_eq!(r, Err(TicketError::Unauthorized));
    assert_eq!(ev.sponsor_earnings, 100);
}

#[test]
fn earnings_cannot_be_claimed_twice() {
    let mut ev = concert();
    let mut sponsor_funds: u64 = 1_000;
    let mut sponsor_tickets: u64 = 0;
    sponsor_event(&mut ev, &mut sponsor_funds, &mut sponsor_tickets, 5).unwrap();
    assert_eq!(ev.sponsor_earnings, 500);
    assert_eq!(sponsor_funds, 500);

    assert_eq!(withdraw_earnings(&mut ev, true, &mut sponsor_funds), Ok(500));
    assert_eq!(ev.sponsor_earnings, 0);
    assert_eq!(sponsor_funds, 1_000);

    let again = withdraw_earnings(&mut ev, true, &mut sponsor_funds);
    assert_eq!(again, Err(TicketError::InsufficientBalance));
    assert_eq!(sponsor_funds, 1_000);
}
