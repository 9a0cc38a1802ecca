use vstd::prelude::*;
use crate::error::LotteryError;
use crate::state::{Identity, Lottery};

verus! {

/// The lottery that a valid creation yields: open, and without a winning number.
pub open spec fn created(authority: Identity, lottery_id: u64, ticket_price: u64) -> Lottery {
    Lottery { id: lottery_id, authority, ticket_price, is_open: true, winning_number_handle: 0 }
}

/// What a creation returns: a free ticket is refused, anything else gives the new lottery.
pub open spec fn create_outcome(authority: Identity, lottery_id: u64, ticket_price: u64) -> Result<
    Lottery,
    LotteryError,
> {
    if ticket_price == 0 {
        Err(LotteryError::InvalidTicketPrice)
    } else {
        Ok(created(authority, lottery_id, ticket_price))
    }
}

/// Creates a lottery whose authority is the caller.
pub fn handler(authority: Identity, lottery_id: u64, ticket_price: u64) -> (r: Result<Lottery, LotteryError>)
    ensures
        r == create_outcome(authority, lottery_id, ticket_price),
        r is Ok ==> r->Ok_0.wf(),
{
    if ticket_price == 0 {
        return Err(LotteryError::InvalidTicketPrice);
    }
    Ok(Lottery { id: lottery_id, authority, ticket_price, is_open: true, winning_number_handle: 0 })
}

} // verus!
