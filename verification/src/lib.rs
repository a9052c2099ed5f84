//! An event-ticketing sales and fund-custody ledger.
//!
//! The crate tracks one event record through its lifecycle: creation,
//! sponsorship (pre-allocating tickets to a backer as a paid reservation),
//! public sale, organizer withdrawal of collected proceeds, and closure.
//! Every operation is a guarded state transition on the [`event::Event`]
//! record, with checked arithmetic and an exact contract: which error each
//! rejected request gets, and how the ledger changes when it succeeds.

pub mod custody;
pub mod errors;
pub mod event;
pub mod laws;
pub mod ops;
