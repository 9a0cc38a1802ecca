use vstd::prelude::*;
use crate::adapter::{Reply, Request};
use crate::error::LotteryError;
use crate::state::{Lottery, Ticket};

verus! {

/// How far a check has come.
#[derive(Clone, Copy, Debug, PartialEq, Eq, Structural)]
pub enum CheckProgress {
    Idle,
    /// The handle of the encrypted verdict is awaited.
    AwaitingVerdict,
    Finished,
}

/// What a check works on: a ticket and its lottery. Anyone may ask for it.
#[derive(Clone, Copy, Debug, PartialEq, Eq)]
pub struct CheckWinner {
    pub lottery: Lottery,
    pub ticket: Ticket,
    pub progress: CheckProgress,
}

impl CheckWinner {
    /// Why a check cannot start, if it cannot: there is nothing to compare with before
    /// the draw.
    pub open spec fn refusal(self) -> Option<LotteryError> {
        if self.lottery.winning_number_handle == 0 {
            Some(LotteryError::NotDrawn)
        } else {
            None
        }
    }

    /// The comparison that a check asks for: the guess against the winning number.
    pub open spec fn comparison(self) -> Request {
        Request::Equal { lhs: self.ticket.guess_handle, rhs: self.lottery.winning_number_handle }
    }

    /// The state after `handler`.
    pub open spec fn after_start(self) -> CheckWinner {
        if self.refusal() is Some {
            self
        } else {
            CheckWinner { progress: CheckProgress::AwaitingVerdict, ..self }
        }
    }

    /// What `handler` returns.
    pub open spec fn start_outcome(self) -> Result<Request, LotteryError> {
        match self.refusal() {
            Some(e) => Err(e),
            None => Ok(self.comparison()),
        }
    }

    /// A verdict is awaited and the winning number is still there.
    pub open spec fn awaiting(self) -> bool {
        self.progress == CheckProgress::AwaitingVerdict && self.refusal() is None
    }

    /// The state after `resume`: an awaited handle becomes the ticket's verdict.
    pub open spec fn after_reply(self, reply: Reply) -> CheckWinner {
        if self.awaiting() && reply is Handle {
            CheckWinner {
                ticket: Ticket { is_winner_handle: reply->Handle_0, ..self.ticket },
                progress: CheckProgress::Finished,
                ..self
            }
        } else {
            self
        }
    }

    /// What `resume` returns.
    pub open spec fn reply_outcome(self, reply: Reply) -> Result<Option<Request>, LotteryError> {
        if !self.awaiting() {
            Err(LotteryError::NoCallPending)
        } else if reply is Handle {
            Ok(None)
        } else {
            Err(LotteryError::ExternalCall)
        }
    }
}

/// Starts a check: asks for the encrypted comparison of guess and winning number.
pub fn handler(accounts: &mut CheckWinner) -> (r: Result<Request, LotteryError>)
    ensures
        r == old(accounts).start_outcome(),
        *final(accounts) == old(accounts).after_start(),
{
    if accounts.lottery.winning_number_handle == 0 {
        return Err(LotteryError::NotDrawn);
    }
    accounts.progress = CheckProgress::AwaitingVerdict;
    Ok(Request::Equal { lhs: accounts.ticket.guess_handle, rhs: accounts.lottery.winning_number_handle })
}

/// Takes the reply to the pending call of a check.
pub fn resume(accounts: &mut CheckWinner, reply: Reply) -> (r: Result<Option<Request>, LotteryError>)
    ensures
        r == old(accounts).reply_outcome(reply),
        *final(accounts) == old(accounts).after_reply(reply),
        old(accounts).ticket.wf() ==> final(accounts).ticket.wf(),
{
    let pending = match accounts.progress {
        CheckProgress::AwaitingVerdict => true,
        _ => false,
    };
    if !pending || accounts.lottery.winning_number_handle == 0 {
        return Err(LotteryError::NoCallPending);
    }
    match reply {
        Reply::Handle(handle) => {
            accounts.ticket.is_winner_handle = handle;
            accounts.progress = CheckProgress::Finished;
            Ok(None)
        },
        _ => Err(LotteryError::ExternalCall),
    }
}

} // verus!
