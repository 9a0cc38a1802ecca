//! A lottery whose guesses, winning number and verdicts stay encrypted.
//!
//! Each lifecycle operation is a small state machine. Its `handler` validates the call and
//! names the first call that the host has to make; `resume` takes the host's reply, updates
//! the records and names the next call, until none is left.

use vstd::prelude::*;

pub mod adapter;
pub mod error;
pub mod guarantees;
pub mod instructions;
pub mod plaintext;
pub mod state;
pub mod vault;

use crate::adapter::Request;
use crate::error::LotteryError;
use crate::instructions::buy_ticket::BuyTicket;
use crate::instructions::check_winner::CheckWinner;
use crate::instructions::claim_prize::ClaimPrize;
use crate::instructions::create_lottery::create_outcome;
use crate::instructions::draw_winner::DrawWinner;
use crate::instructions::withdraw_prize::WithdrawPrize;
use crate::state::{Identity, Lottery};

verus! {

/// Creates a lottery with the caller as its authority; a ticket price of zero is refused.
pub fn create_lottery(authority: Identity, lottery_id: u64, ticket_price: u64) -> (r: Result<Lottery, LotteryError>)
    ensures
        r == create_outcome(authority, lottery_id, ticket_price),
        r is Ok ==> r->Ok_0.wf(),
{
    instructions::create_lottery::handler(authority, lottery_id, ticket_price)
}

/// Starts the purchase of a ticket with the given encrypted guess.
pub fn buy_ticket(accounts: &mut BuyTicket, encrypted_guess: Vec<u8>) -> (r: Result<Request, LotteryError>)
    ensures
        r == old(accounts).start_outcome(encrypted_guess),
        *final(accounts) == old(accounts).after_start(),
{
    instructions::buy_ticket::handler(accounts, encrypted_guess)
}

/// Starts the draw: closes the lottery, then asks for the ciphertext of the winning number.
pub fn draw_winner(accounts: &mut DrawWinner, encrypted_winning_number: Vec<u8>) -> (r: Result<
    Request,
    LotteryError,
>)
    ensures
        r == old(accounts).start_outcome(encrypted_winning_number),
        *final(accounts) == old(accounts).after_start(),
        old(accounts).lottery.wf() ==> final(accounts).lottery.wf(),
{
    instructions::draw_winner::handler(accounts, encrypted_winning_number)
}

/// Starts the check of a ticket against the winning number.
pub fn check_winner(accounts: &mut CheckWinner) -> (r: Result<Request, LotteryError>)
    ensures
        r == old(accounts).start_outcome(),
        *final(accounts) == old(accounts).after_start(),
{
    instructions::check_winner::handler(accounts)
}

/// Starts the claim of a ticket's prize.
pub fn claim_prize(accounts: &mut ClaimPrize) -> (r: Result<Request, LotteryError>)
    ensures
        r == old(accounts).start_outcome(),
        *final(accounts) == old(accounts).after_start(),
{
    instructions::claim_prize::handler(accounts)
}

/// Starts the withdrawal of a claimed prize under a decryption proof.
pub fn withdraw_prize(accounts: &mut WithdrawPrize, handle: Vec<u8>, plaintext: Vec<u8>) -> (r: Result<
    Request,
    LotteryError,
>)
    ensures
        r == old(accounts).start_outcome(handle, plaintext),
        *final(accounts) == old(accounts).after_start(plaintext@),
{
    instructions::withdraw_prize::handler(accounts, handle, plaintext)
}

} // verus!
