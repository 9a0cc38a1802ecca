use vstd::prelude::*;
use crate::adapter::{Reply, Request};
use crate::error::LotteryError;
use crate::state::{Identity, Ticket};

verus! {

/// How far a claim has come.
#[derive(Clone, Copy, Debug, PartialEq, Eq, Structural)]
pub enum ClaimProgress {
    Idle,
    /// The ciphertext of the vault's balance is awaited.
    AwaitingPrize,
    /// The ciphertext of zero is awaited.
    AwaitingZero { prize: u128 },
    /// The selected ciphertext is awaited.
    AwaitingSelection,
    /// The ticket is claimed; the answer to the decryption allowance is awaited.
    AwaitingAllowance,
    Finished,
}

/// What a claim works on: the caller, the ticket, the vault's balance and the number of
/// further accounts that the caller passed along.
#[derive(Clone, Copy, Debug, PartialEq, Eq)]
pub struct ClaimPrize {
    pub claimer: Identity,
    pub ticket: Ticket,
    pub vault_lamports: u64,
    /// With two or more of them the claim also grants the owner a decryption allowance.
    pub remaining_accounts: usize,
    pub progress: ClaimProgress,
}

/// Why `caller` cannot claim `ticket`, if so: ownership comes first, then a repeated
/// claim, then a missing verdict.
pub open spec fn claim_refusal(ticket: Ticket, caller: Identity) -> Option<LotteryError> {
    if ticket.owner != caller {
        Some(LotteryError::NotOwner)
    } else if ticket.claimed {
        Some(LotteryError::AlreadyClaimed)
    } else if ticket.is_winner_handle == 0 {
        Some(LotteryError::NotChecked)
    } else {
        None
    }
}

/// What asking for an allowance returns: the owner of a claimed ticket with a prize
/// handle gets the call that lets the owner decrypt it.
pub open spec fn allowance_outcome(ticket: Ticket, caller: Identity) -> Result<Request, LotteryError> {
    if ticket.owner != caller {
        Err(LotteryError::NotOwner)
    } else if !ticket.claimed {
        Err(LotteryError::NotClaimed)
    } else if ticket.prize_handle == 0 {
        Err(LotteryError::NotChecked)
    } else {
        Ok(Request::Allow { handle: ticket.prize_handle, allowed: ticket.owner })
    }
}

impl ClaimPrize {
    /// Why the claim cannot start, if it cannot.
    pub open spec fn refusal(self) -> Option<LotteryError> {
        claim_refusal(self.ticket, self.claimer)
    }

    /// The state after `handler`.
    pub open spec fn after_start(self) -> ClaimPrize {
        if self.refusal() is Some {
            self
        } else {
            ClaimPrize { progress: ClaimProgress::AwaitingPrize, ..self }
        }
    }

    /// What `handler` returns: the refusal, or the call that encrypts the vault's balance.
    pub open spec fn start_outcome(self) -> Result<Request, LotteryError> {
        match self.refusal() {
            Some(e) => Err(e),
            None => Ok(Request::Encrypt { value: self.vault_lamports as u128 }),
        }
    }

    /// A reply is awaited and the ticket is in the state that the stage belongs to:
    /// claimable before the selection arrived, claimed by its owner after it.
    pub open spec fn awaiting(self) -> bool {
        match self.progress {
            ClaimProgress::AwaitingPrize | ClaimProgress::AwaitingZero { .. } | ClaimProgress::AwaitingSelection =>
                self.refusal() is None,
            ClaimProgress::AwaitingAllowance => self.ticket.owner == self.claimer && self.ticket.claimed,
            _ => false,
        }
    }

    /// Whether the reply is of the kind that the stage waits for.
    pub open spec fn fits(self, reply: Reply) -> bool {
        if self.progress is AwaitingAllowance {
            reply is Done
        } else {
            reply is Handle
        }
    }

    /// The state after `resume`. The selected handle becomes the prize handle and marks
    /// the ticket as claimed; nothing else touches the ticket.
    pub open spec fn after_reply(self, reply: Reply) -> ClaimPrize {
        if !self.awaiting() || !self.fits(reply) {
            self
        } else {
            match self.progress {
                ClaimProgress::AwaitingPrize => ClaimPrize {
                    progress: ClaimProgress::AwaitingZero { prize: reply->Handle_0 },
                    ..self
                },
                ClaimProgress::AwaitingZero { .. } => ClaimPrize {
                    progress: ClaimProgress::AwaitingSelection,
                    ..self
                },
                ClaimProgress::AwaitingSelection => ClaimPrize {
                    ticket: Ticket { prize_handle: reply->Handle_0, claimed: true, ..self.ticket },
                    progress: if self.remaining_accounts >= 2 {
                        ClaimProgress::AwaitingAllowance
                    } else {
                        ClaimProgress::Finished
                    },
                    ..self
                },
                _ => ClaimPrize { progress: ClaimProgress::Finished, ..self },
            }
        }
    }

    /// What `resume` returns. Whatever the verdict holds, the calls are the same: encrypt
    /// the balance, encrypt zero, select between the two by the verdict.
    pub open spec fn reply_outcome(self, reply: Reply) -> Result<Option<Request>, LotteryError> {
        if !self.awaiting() {
            Err(LotteryError::NoCallPending)
        } else if !self.fits(reply) {
            Err(LotteryError::ExternalCall)
        } else {
            match self.progress {
                ClaimProgress::AwaitingPrize => Ok(Some(Request::Encrypt { value: 0 })),
                ClaimProgress::AwaitingZero { prize } => Ok(
                    Some(
                        Request::Select {
                            condition: self.ticket.is_winner_handle,
                            if_true: prize,
                            if_false: reply->Handle_0,
                        },
                    ),
                ),
                ClaimProgress::AwaitingSelection => if self.remaining_accounts >= 2 {
                    Ok(Some(Request::Allow { handle: reply->Handle_0, allowed: self.ticket.owner }))
                } else {
                    Ok(None)
                },
                _ => Ok(None),
            }
        }
    }
}

/// Starts a claim: asks for the ciphertext of the vault's balance.
pub fn handler(accounts: &mut ClaimPrize) -> (r: Result<Request, LotteryError>)
    ensures
        r == old(accounts).start_outcome(),
        *final(accounts) == old(accounts).after_start(),
{
    if !accounts.ticket.owner.same(&accounts.claimer) {
        return Err(LotteryError::NotOwner);
    }
    if accounts.ticket.claimed {
        return Err(LotteryError::AlreadyClaimed);
    }
    if accounts.ticket.is_winner_handle == 0 {
        return Err(LotteryError::NotChecked);
    }
    accounts.progress = ClaimProgress::AwaitingPrize;
    Ok(Request::Encrypt { value: accounts.vault_lamports as u128 })
}

fn claimable(ticket: &Ticket, caller: &Identity) -> (yes: bool)
    ensures
        yes == (claim_refusal(*ticket, *caller) is None),
{
    ticket.owner.same(caller) && !ticket.claimed && ticket.is_winner_handle != 0
}

/// Takes the reply to the pending call of a claim.
pub fn resume(accounts: &mut ClaimPrize, reply: Reply) -> (r: Result<Option<Request>, LotteryError>)
    ensures
        r == old(accounts).reply_outcome(reply),
        *final(accounts) == old(accounts).after_reply(reply),
        old(accounts).ticket.wf() ==> final(accounts).ticket.wf(),
{
    match accounts.progress {
        ClaimProgress::AwaitingPrize => {
            if !claimable(&accounts.ticket, &accounts.claimer) {
                return Err(LotteryError::NoCallPending);
            }
            match reply {
                Reply::Handle(prize) => {
                    accounts.progress = ClaimProgress::AwaitingZero { prize };
                    Ok(Some(Request::Encrypt { value: 0 }))
                },
                _ => Err(LotteryError::ExternalCall),
            }
        },
        ClaimProgress::AwaitingZero { prize } => {
            if !claimable(&accounts.ticket, &accounts.claimer) {
                return Err(LotteryError::NoCallPending);
            }
            match reply {
                Reply::Handle(zero) => {
                    accounts.progress = ClaimProgress::AwaitingSelection;
                    Ok(
                        Some(
                            Request::Select {
                                condition: accounts.ticket.is_winner_handle,
                                if_true: prize,
                                if_false: zero,
                            },
                        ),
                    )
                },
                _ => Err(LotteryError::ExternalCall),
            }
        },
        ClaimProgress::AwaitingSelection => {
            if !claimable(&accounts.ticket, &accounts.claimer) {
                return Err(LotteryError::NoCallPending);
            }
            match reply {
                Reply::Handle(selected) => {
                    accounts.ticket.prize_handle = selected;
                    accounts.ticket.claimed = true;
                    if accounts.remaining_accounts >= 2 {
                        accounts.progress = ClaimProgress::AwaitingAllowance;
                        Ok(Some(Request::Allow { handle: selected, allowed: accounts.ticket.owner }))
                    } else {
                        accounts.progress = ClaimProgress::Finished;
                        Ok(None)
                    }
                },
                _ => Err(LotteryError::ExternalCall),
            }
        },
        ClaimProgress::AwaitingAllowance => {
            if !accounts.ticket.owner.same(&accounts.claimer) || !accounts.ticket.claimed {
                return Err(LotteryError::NoCallPending);
            }
            match reply {
                Reply::Done => {
                    accounts.progress = ClaimProgress::Finished;
                    Ok(None)
                },
                _ => Err(LotteryError::ExternalCall),
            }
        },
        _ => Err(LotteryError::NoCallPending),
    }
}

/// Names the call that lets the owner of a claimed ticket decrypt its prize. It can be
/// asked for at any time after the claim, whatever was passed along with the claim.
pub fn allowance_request(ticket: &Ticket, caller: &Identity) -> (r: Result<Request, LotteryError>)
    ensures
        r == allowance_outcome(*ticket, *caller),
{
    if !ticket.owner.same(caller) {
        return Err(LotteryError::NotOwner);
    }
    if !ticket.claimed {
        return Err(LotteryError::NotClaimed);
    }
    if ticket.prize_handle == 0 {
        return Err(LotteryError::NotChecked);
    }
    Ok(Request::Allow { handle: ticket.prize_handle, allowed: ticket.owner })
}

} // verus!
