//! What holds of the lifecycle operations taken together.

use vstd::prelude::*;
use crate::adapter::{Reply, Request};
use crate::error::{ErrorKind, LotteryError};
use crate::instructions::check_winner::CheckWinner;
use crate::instructions::claim_prize::ClaimPrize;
use crate::instructions::draw_winner::DrawWinner;
use crate::instructions::withdraw_prize::WithdrawPrize;
use crate::plaintext::decoded_amount;
use crate::state::Ticket;
use crate::vault::spec_min;

verus! {

/// A check asks for the same comparison however often it runs: a stored verdict changes
/// neither the guess nor the winning number, and nothing else goes into the comparison.
pub proof fn lemma_check_repeats(accounts: CheckWinner, reply: Reply)
    ensures
        accounts.after_start().after_reply(reply).start_outcome() == accounts.start_outcome(),
        accounts.after_start().after_reply(reply).ticket.guess_handle == accounts.ticket.guess_handle,
        accounts.after_start().after_reply(reply).lottery == accounts.lottery,
{
}

/// A draw that was admitted leaves the lottery closed whatever the service answers, and
/// no second draw is admitted on it.
pub proof fn lemma_draw_closes_for_good(accounts: DrawWinner, reply: Reply)
    requires
        accounts.refusal() is None,
    ensures
        !accounts.after_start().lottery.is_open,
        !accounts.after_start().after_reply(reply).lottery.is_open,
        accounts.after_start().after_reply(reply).refusal() == Some(LotteryError::LotteryClosed),
        accounts.after_start().refusal() == Some(LotteryError::LotteryClosed),
{
}

/// Once the selection of a claim has been stored, any further claim on that ticket by
/// its owner is turned away as out of order, and no reply changes the ticket again.
pub proof fn lemma_claim_only_once(first: ClaimPrize, selected: u128, second: ClaimPrize, reply: Reply)
    requires
        first.awaiting(),
        first.progress is AwaitingSelection,
        second.ticket == first.after_reply(Reply::Handle(selected)).ticket,
        second.claimer == second.ticket.owner,
    ensures
        second.ticket.claimed,
        second.ticket.prize_handle == selected,
        second.start_outcome() == Err::<Request, LotteryError>(LotteryError::AlreadyClaimed),
        LotteryError::AlreadyClaimed.kind_spec() == ErrorKind::State,
        second.after_start() == second,
        second.after_reply(reply).ticket == second.ticket,
{
}

/// The calls of a claim do not tell a winner from a loser: two claims that differ in the
/// verdict alone ask for the same calls at every stage, but for the condition that the
/// selection is handed.
pub proof fn lemma_claim_calls_ignore_verdict(accounts: ClaimPrize, verdict: u128, reply: Reply)
    requires
        accounts.awaiting(),
        !(accounts.progress is AwaitingAllowance),
        verdict != 0,
    ensures
        ({
            let other = ClaimPrize { ticket: Ticket { is_winner_handle: verdict, ..accounts.ticket }, ..accounts };
            &&& other.awaiting()
            &&& other.start_outcome() == accounts.start_outcome()
            &&& other.after_reply(reply).progress == accounts.after_reply(reply).progress
            &&& other.after_reply(reply).ticket.prize_handle == accounts.after_reply(reply).ticket.prize_handle
            &&& if accounts.progress is AwaitingZero && reply is Handle {
                &&& accounts.reply_outcome(reply) matches Ok(Some(Request::Select { condition, if_true, if_false }))
                &&& condition == accounts.ticket.is_winner_handle
                &&& other.reply_outcome(reply) == Ok::<Option<Request>, LotteryError>(
                    Some(Request::Select { condition: verdict, if_true, if_false }),
                )
            } else {
                other.reply_outcome(reply) == accounts.reply_outcome(reply)
            }
        }),
{
}

/// Nobody but the owner can claim a ticket: the attempt is turned away as unauthorized
/// and changes nothing, at the start and at every reply.
pub proof fn lemma_stranger_cannot_claim(accounts: ClaimPrize, reply: Reply)
    requires
        accounts.claimer != accounts.ticket.owner,
    ensures
        accounts.start_outcome() == Err::<Request, LotteryError>(LotteryError::NotOwner),
        LotteryError::NotOwner.kind_spec() == ErrorKind::Authorization,
        accounts.after_start() == accounts,
        accounts.reply_outcome(reply) is Err,
        accounts.after_reply(reply) == accounts,
{
}

/// Nobody but the owner can withdraw on a ticket: the attempt is turned away as
/// unauthorized and changes nothing, at the start and at every reply.
pub proof fn lemma_stranger_cannot_withdraw(
    accounts: WithdrawPrize,
    handle: Vec<u8>,
    plaintext: Vec<u8>,
    reply: Reply,
)
    requires
        accounts.winner != accounts.ticket.owner,
    ensures
        accounts.start_outcome(handle, plaintext) == Err::<Request, LotteryError>(LotteryError::NotOwner),
        LotteryError::NotOwner.kind_spec() == ErrorKind::Authorization,
        accounts.after_start(plaintext@) == accounts,
        accounts.reply_outcome(reply) is Err,
        accounts.after_reply(reply) == accounts,
{
}

/// A plaintext that decodes to zero never pays, whether the ticket is claimed or not:
/// after a withdrawal was asked for with it, every reply ends in an error and leaves
/// ticket and vault as they were. Where the withdrawal was admitted and the proof held,
/// that error is the validation error of a ticket that did not win.
pub proof fn lemma_zero_never_pays(accounts: WithdrawPrize, plaintext: Seq<u8>, reply: Reply)
    requires
        decoded_amount(plaintext) == 0,
    ensures
        accounts.after_start(plaintext).reply_outcome(reply) is Err,
        accounts.after_start(plaintext).after_reply(reply) == accounts.after_start(plaintext),
        accounts.after_start(plaintext).ticket == accounts.ticket,
        accounts.after_start(plaintext).vault_lamports == accounts.vault_lamports,
        accounts.refusal() is None ==> accounts.after_start(plaintext).reply_outcome(Reply::Done) == Err::<
            Option<Request>,
            LotteryError,
        >(LotteryError::NotWinner),
        LotteryError::NotWinner.kind_spec() == ErrorKind::Validation,
{
}

/// A withdrawal that goes through releases the proven amount capped by the vault's
/// balance to the caller, under the derivation of this lottery's vault, and leaves
/// exactly the rest in the vault.
pub proof fn lemma_withdrawal_pays_capped_amount(accounts: WithdrawPrize, plaintext: Seq<u8>)
    requires
        accounts.refusal() is None,
        decoded_amount(plaintext) > 0,
    ensures
        ({
            let proven = accounts.after_start(plaintext).after_reply(Reply::Done);
            let paid = proven.after_reply(Reply::Done);
            let amount = decoded_amount(plaintext) as u64;
            &&& amount == decoded_amount(plaintext)
            &&& accounts.after_start(plaintext).reply_outcome(Reply::Done) == Ok::<Option<Request>, LotteryError>(
                Some(
                    Request::Release {
                        amount: spec_min(accounts.vault_lamports, amount),
                        signer: accounts.vault_signer,
                        recipient: accounts.winner,
                    },
                ),
            )
            &&& proven.reply_outcome(Reply::Done) == Ok::<Option<Request>, LotteryError>(None)
            &&& paid.vault_lamports == accounts.vault_lamports - spec_min(accounts.vault_lamports, amount)
            &&& 0 <= paid.vault_lamports <= accounts.vault_lamports
            &&& paid.ticket.withdrawn
        }),
{
}

/// A prize is paid at most once: on a ticket that a finished withdrawal has marked, a
/// further withdrawal with any proof is turned away as out of order before any call is
/// made, and no reply moves funds.
pub proof fn lemma_withdraw_only_once(
    first: WithdrawPrize,
    second: WithdrawPrize,
    handle: Vec<u8>,
    plaintext: Vec<u8>,
    reply: Reply,
)
    requires
        first.awaiting(),
        first.progress is AwaitingTransfer,
        second.ticket == first.after_reply(Reply::Done).ticket,
        second.winner == second.ticket.owner,
    ensures
        second.start_outcome(handle, plaintext) == Err::<Request, LotteryError>(LotteryError::AlreadyWithdrawn),
        LotteryError::AlreadyWithdrawn.kind_spec() == ErrorKind::State,
        second.after_start(plaintext@) == second,
        second.reply_outcome(reply) == Err::<Option<Request>, LotteryError>(LotteryError::NoCallPending),
        second.after_reply(reply) == second,
{
}

} // verus!
