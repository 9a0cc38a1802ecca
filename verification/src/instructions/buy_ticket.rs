use vstd::prelude::*;
use crate::adapter::{Reply, Request};
use crate::error::LotteryError;
use crate::state::{Identity, Lottery, Ticket};

verus! {

/// How far a purchase has come.
#[derive(Clone, Copy, Debug, PartialEq, Eq, Structural)]
pub enum BuyProgress {
    Idle,
    /// The handle of the guess is awaited.
    AwaitingHandle,
    /// The guess has its handle; the payment into the vault is awaited.
    AwaitingPayment { guess_handle: u128 },
    Finished,
}

/// What a purchase works on: the buyer, the lottery with its address, and the place
/// where the new ticket appears.
#[derive(Clone, Copy, Debug, PartialEq, Eq)]
pub struct BuyTicket {
    pub buyer: Identity,
    pub lottery_key: Identity,
    pub lottery: Lottery,
    /// `None` until the purchase is complete.
    pub ticket: Option<Ticket>,
    pub progress: BuyProgress,
}

impl BuyTicket {
    /// Why a purchase cannot start, if it cannot.
    pub open spec fn refusal(self) -> Option<LotteryError> {
        if !self.lottery.is_open {
            Some(LotteryError::LotteryClosed)
        } else {
            None
        }
    }

    /// The state after `handler`.
    pub open spec fn after_start(self) -> BuyTicket {
        if self.refusal() is Some {
            self
        } else {
            BuyTicket { progress: BuyProgress::AwaitingHandle, ..self }
        }
    }

    /// What `handler` returns: the refusal, or the call that turns the given bytes into
    /// a ciphertext.
    pub open spec fn start_outcome(self, encrypted_guess: Vec<u8>) -> Result<Request, LotteryError> {
        match self.refusal() {
            Some(e) => Err(e),
            None => Ok(Request::NewCiphertext { ciphertext: encrypted_guess }),
        }
    }

    /// A reply is awaited, the lottery is still open and no ticket was issued.
    pub open spec fn awaiting(self) -> bool {
        &&& self.progress is AwaitingHandle || self.progress is AwaitingPayment
        &&& self.lottery.is_open
        &&& self.ticket is None
    }

    /// The state after `resume`: the handle of the guess is remembered until the price
    /// is paid, and only then the ticket is issued to the buyer.
    pub open spec fn after_reply(self, reply: Reply) -> BuyTicket {
        if !self.awaiting() {
            self
        } else if self.progress is AwaitingHandle && reply is Handle {
            BuyTicket { progress: BuyProgress::AwaitingPayment { guess_handle: reply->Handle_0 }, ..self }
        } else if self.progress is AwaitingPayment && reply is Done {
            BuyTicket {
                ticket: Some(Ticket::fresh(self.lottery_key, self.buyer, self.progress->guess_handle)),
                progress: BuyProgress::Finished,
                ..self
            }
        } else {
            self
        }
    }

    /// What `resume` returns: after the handle the price is collected from the buyer,
    /// after the payment nothing is left to do.
    pub open spec fn reply_outcome(self, reply: Reply) -> Result<Option<Request>, LotteryError> {
        if !self.awaiting() {
            Err(LotteryError::NoCallPending)
        } else if self.progress is AwaitingHandle && reply is Handle {
            Ok(
                Some(
                    Request::Collect {
                        amount: self.lottery.ticket_price,
                        payer: self.buyer,
                        lottery: self.lottery_key,
                    },
                ),
            )
        } else if self.progress is AwaitingPayment && reply is Done {
            Ok(None)
        } else {
            Err(LotteryError::ExternalCall)
        }
    }
}

/// Starts a purchase: asks for the ciphertext of the buyer's guess.
pub fn handler(accounts: &mut BuyTicket, encrypted_guess: Vec<u8>) -> (r: Result<Request, LotteryError>)
    ensures
        r == old(accounts).start_outcome(encrypted_guess),
        *final(accounts) == old(accounts).after_start(),
{
    if !accounts.lottery.is_open {
        return Err(LotteryError::LotteryClosed);
    }
    accounts.progress = BuyProgress::AwaitingHandle;
    Ok(Request::NewCiphertext { ciphertext: encrypted_guess })
}

/// Takes the reply to the pending call of a purchase.
pub fn resume(accounts: &mut BuyTicket, reply: Reply) -> (r: Result<Option<Request>, LotteryError>)
    ensures
        r == old(accounts).reply_outcome(reply),
        *final(accounts) == old(accounts).after_reply(reply),
        final(accounts).ticket is Some && old(accounts).ticket is None ==> final(accounts).ticket->Some_0.wf(),
{
    if !accounts.lottery.is_open || accounts.ticket.is_some() {
        return Err(LotteryError::NoCallPending);
    }
    match (accounts.progress, reply) {
        (BuyProgress::AwaitingHandle, Reply::Handle(handle)) => {
            accounts.progress = BuyProgress::AwaitingPayment { guess_handle: handle };
            Ok(
                Some(
                    Request::Collect {
                        amount: accounts.lottery.ticket_price,
                        payer: accounts.buyer,
                        lottery: accounts.lottery_key,
                    },
                ),
            )
        },
        (BuyProgress::AwaitingPayment { guess_handle }, Reply::Done) => {
            accounts.ticket = Some(
                Ticket {
                    lottery: accounts.lottery_key,
                    owner: accounts.buyer,
                    guess_handle,
                    is_winner_handle: 0,
                    prize_handle: 0,
                    claimed: false,
                    withdrawn: false,
                },
            );
            accounts.progress = BuyProgress::Finished;
            Ok(None)
        },
        (BuyProgress::AwaitingHandle, _) => Err(LotteryError::ExternalCall),
        (BuyProgress::AwaitingPayment { .. }, _) => Err(LotteryError::ExternalCall),
        _ => Err(LotteryError::NoCallPending),
    }
}

} // verus!
