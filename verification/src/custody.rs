use vstd::prelude::*;

use crate::errors::TicketError;

verus! {

/// The in-model ticket-unit mint primitive of the token service: credit
/// `quantity` units to a recipient holding. It is all-or-nothing: it
/// fails, and leaves the holding untouched, exactly when the holding
/// cannot take the quantity.
pub fn mint_units(holding: &mut u64, quantity: u64) -> (r: Result<(), TicketError>)
    ensures
        *old(holding) + quantity <= u64::MAX ==> {
            &&& r == Ok::<(), TicketError>(())
            &&& *final(holding) == *old(holding) + quantity
        },
        *old(holding) + quantity > u64::MAX ==> {
            &&& r == Err::<(), TicketError>(TicketError::MintFailure)
            &&& *final(holding) == *old(holding)
        },
{
    match holding.checked_add(quantity) {
        Some(total) => {
            *holding = total;
            Ok(())
        },
        None => Err(TicketError::MintFailure),
    }
}

} // verus!
