use vstd::prelude::*;
use crate::adapter::{Reply, Request};
use crate::error::LotteryError;
use crate::plaintext::{decoded_amount, parse_plaintext_to_u64};
use crate::state::{Identity, Ticket};
use crate::vault::{balance_after, payout, spec_min, VaultSigner};

verus! {

/// How far a withdrawal has come.
#[derive(Clone, Copy, Debug, PartialEq, Eq, Structural)]
pub enum WithdrawProgress {
    Idle,
    /// The verdict on the decryption proof is awaited; `amount` is what the plaintext says.
    AwaitingProof { amount: u64 },
    /// The proof held; the transfer of `amount` out of the vault is awaited.
    AwaitingTransfer { amount: u64 },
    Finished,
}

/// What a withdrawal works on: the caller, the ticket, and the vault of the ticket's
/// lottery with its balance and the derivation that signs for it.
#[derive(Clone, Copy, Debug, PartialEq, Eq)]
pub struct WithdrawPrize {
    pub winner: Identity,
    pub ticket: Ticket,
    pub vault_lamports: u64,
    pub vault_signer: VaultSigner,
    pub progress: WithdrawProgress,
}

/// Why `caller` cannot withdraw on `ticket`, if so: ownership comes first, then a missing
/// claim, then a missing prize handle, then a prize that was paid before.
pub open spec fn withdraw_refusal(ticket: Ticket, caller: Identity) -> Option<LotteryError> {
    if ticket.owner != caller {
        Some(LotteryError::NotOwner)
    } else if !ticket.claimed {
        Some(LotteryError::NotClaimed)
    } else if ticket.prize_handle == 0 {
        Some(LotteryError::NotChecked)
    } else if ticket.withdrawn {
        Some(LotteryError::AlreadyWithdrawn)
    } else {
        None
    }
}

impl WithdrawPrize {
    /// Why the withdrawal cannot start, if it cannot.
    pub open spec fn refusal(self) -> Option<LotteryError> {
        withdraw_refusal(self.ticket, self.winner)
    }

    /// The state after `handler`: the decoded plaintext is remembered, nothing else moves.
    pub open spec fn after_start(self, plaintext: Seq<u8>) -> WithdrawPrize {
        if self.refusal() is Some {
            self
        } else {
            WithdrawPrize {
                progress: WithdrawProgress::AwaitingProof { amount: decoded_amount(plaintext) as u64 },
                ..self
            }
        }
    }

    /// What `handler` returns: the refusal, or the call that checks the caller's
    /// decryption proof for exactly the given handle and plaintext.
    pub open spec fn start_outcome(self, handle: Vec<u8>, plaintext: Vec<u8>) -> Result<Request, LotteryError> {
        match self.refusal() {
            Some(e) => Err(e),
            None => Ok(Request::VerifyDecryption { handle_bytes: handle, plaintext, prover: self.winner }),
        }
    }

    /// A reply is awaited and the ticket still admits a withdrawal.
    pub open spec fn awaiting(self) -> bool {
        &&& self.progress is AwaitingProof || self.progress is AwaitingTransfer
        &&& self.refusal() is None
    }

    /// The amount that the stage carries.
    pub open spec fn pending_amount(self) -> u64 {
        match self.progress {
            WithdrawProgress::AwaitingProof { amount } => amount,
            WithdrawProgress::AwaitingTransfer { amount } => amount,
            _ => 0,
        }
    }

    /// The state after `resume`. A proof that held for a positive amount fixes what will
    /// be paid: the amount, capped by the vault's balance. A confirmed transfer takes that
    /// out of the vault and marks the ticket as paid. Everything else changes nothing.
    pub open spec fn after_reply(self, reply: Reply) -> WithdrawPrize {
        if !self.awaiting() || !(reply is Done) {
            self
        } else if self.progress is AwaitingProof {
            if self.pending_amount() == 0 {
                self
            } else {
                WithdrawPrize {
                    progress: WithdrawProgress::AwaitingTransfer {
                        amount: spec_min(self.vault_lamports, self.pending_amount()),
                    },
                    ..self
                }
            }
        } else {
            WithdrawPrize {
                ticket: Ticket { withdrawn: true, ..self.ticket },
                vault_lamports: balance_after(self.vault_lamports, self.pending_amount()),
                progress: WithdrawProgress::Finished,
                ..self
            }
        }
    }

    /// What `resume` returns. After the proof, an amount of zero is turned away as no
    /// win; a positive one releases the capped amount to the caller under the vault's
    /// derivation.
    pub open spec fn reply_outcome(self, reply: Reply) -> Result<Option<Request>, LotteryError> {
        if !self.awaiting() {
            Err(LotteryError::NoCallPending)
        } else if !(reply is Done) {
            Err(LotteryError::ExternalCall)
        } else if self.progress is AwaitingProof {
            if self.pending_amount() == 0 {
                Err(LotteryError::NotWinner)
            } else {
                Ok(
                    Some(
                        Request::Release {
                            amount: spec_min(self.vault_lamports, self.pending_amount()),
                            signer: self.vault_signer,
                            recipient: self.winner,
                        },
                    ),
                )
            }
        } else {
            Ok(None)
        }
    }
}

fn withdrawable(ticket: &Ticket, caller: &Identity) -> (yes: bool)
    ensures
        yes == (withdraw_refusal(*ticket, *caller) is None),
{
    ticket.owner.same(caller) && ticket.claimed && ticket.prize_handle != 0 && !ticket.withdrawn
}

/// Starts a withdrawal: asks for the check of the decryption proof.
pub fn handler(accounts: &mut WithdrawPrize, handle: Vec<u8>, plaintext: Vec<u8>) -> (r: Result<
    Request,
    LotteryError,
>)
    ensures
        r == old(accounts).start_outcome(handle, plaintext),
        *final(accounts) == old(accounts).after_start(plaintext@),
{
    if !accounts.ticket.owner.same(&accounts.winner) {
        return Err(LotteryError::NotOwner);
    }
    if !accounts.ticket.claimed {
        return Err(LotteryError::NotClaimed);
    }
    if accounts.ticket.prize_handle == 0 {
        return Err(LotteryError::NotChecked);
    }
    if accounts.ticket.withdrawn {
        return Err(LotteryError::AlreadyWithdrawn);
    }
    let amount: u64 = parse_plaintext_to_u64(plaintext.as_slice());
    accounts.progress = WithdrawProgress::AwaitingProof { amount };
    Ok(Request::VerifyDecryption { handle_bytes: handle, plaintext, prover: accounts.winner })
}

/// Takes the reply to the pending call of a withdrawal.
pub fn resume(accounts: &mut WithdrawPrize, reply: Reply) -> (r: Result<Option<Request>, LotteryError>)
    ensures
        r == old(accounts).reply_outcome(reply),
        *final(accounts) == old(accounts).after_reply(reply),
        old(accounts).ticket.wf() ==> final(accounts).ticket.wf(),
        final(accounts).vault_lamports <= old(accounts).vault_lamports,
{
    if !withdrawable(&accounts.ticket, &accounts.winner) {
        return Err(LotteryError::NoCallPending);
    }
    match (accounts.progress, reply) {
        (WithdrawProgress::AwaitingProof { amount }, Reply::Done) => {
            if amount == 0 {
                return Err(LotteryError::NotWinner);
            }
            let paid: u64 = payout(accounts.vault_lamports, amount);
            accounts.progress = WithdrawProgress::AwaitingTransfer { amount: paid };
            Ok(
                Some(
                    Request::Release {
                        amount: paid,
                        signer: accounts.vault_signer,
                        recipient: accounts.winner,
                    },
                ),
            )
        },
        (WithdrawProgress::AwaitingTransfer { amount }, Reply::Done) => {
            let paid: u64 = payout(accounts.vault_lamports, amount);
            accounts.vault_lamports = accounts.vault_lamports - paid;
            accounts.ticket.withdrawn = true;
            accounts.progress = WithdrawProgress::Finished;
            Ok(None)
        },
        (WithdrawProgress::AwaitingProof { .. }, _) => Err(LotteryError::ExternalCall),
        (WithdrawProgress::AwaitingTransfer { .. }, _) => Err(LotteryError::ExternalCall),
        _ => Err(LotteryError::NoCallPending),
    }
}

} // verus!
