use vstd::prelude::*;

verus! {

/// The error kinds that the ledger operations report.
///
/// Every precondition check happens before any mutation, and a failed
/// operation leaves all state unchanged; the kind names exactly which
/// check refused the request.
#[derive(Clone, Copy, Debug, PartialEq, Eq, Structural)]
pub enum TicketError {
    /// A caller-supplied argument is malformed: an empty or over-long
    /// event name, a zero ticket price, or a zero quantity or amount.
    InvalidArgument,
    /// The target identity already holds an event record.
    AlreadyExists,
    /// The caller lacks the capability the operation demands: it is not
    /// the organizer, or holds no sponsor position.
    Unauthorized,
    /// The event has been closed; no further sponsorship or sale succeeds.
    EventClosed,
    /// The event was already closed when closure was requested again.
    AlreadyClosed,
    /// A counter or cost computation on the event record would overflow.
    Overflow,
    /// The paying custody cannot cover the computed cost.
    InsufficientFunds,
    /// The requested withdrawal exceeds the accrued balance, or nothing
    /// has accrued.
    InsufficientBalance,
    /// The ticket-unit mint primitive failed: the recipient holding
    /// cannot take the minted quantity.
    MintFailure,
    /// The currency-transfer primitive failed: the recipient custody
    /// cannot take the transferred amount.
    TransferFailure,
}

} // verus!
