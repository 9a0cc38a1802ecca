use vstd::prelude::*;
use crate::adapter::{Reply, Request};
use crate::error::LotteryError;
use crate::state::{Identity, Lottery};

verus! {

/// How far a draw has come.
#[derive(Clone, Copy, Debug, PartialEq, Eq, Structural)]
pub enum DrawProgress {
    Idle,
    /// The lottery is closed; the handle of the winning number is awaited.
    AwaitingHandle,
    Finished,
}

/// What a draw works on: the caller and the lottery.
#[derive(Clone, Copy, Debug, PartialEq, Eq)]
pub struct DrawWinner {
    /// The caller, who must be the lottery's authority.
    pub authority: Identity,
    pub lottery: Lottery,
    pub progress: DrawProgress,
}

impl DrawWinner {
    /// Why a draw cannot start, if it cannot: a stranger is turned away before the
    /// lottery's state is looked at.
    pub open spec fn refusal(self) -> Option<LotteryError> {
        if self.lottery.authority != self.authority {
            Some(LotteryError::Unauthorized)
        } else if !self.lottery.is_open {
            Some(LotteryError::LotteryClosed)
        } else {
            None
        }
    }

    /// The state after `handler`: an admitted draw closes the lottery at once.
    pub open spec fn after_start(self) -> DrawWinner {
        if self.refusal() is Some {
            self
        } else {
            DrawWinner {
                lottery: Lottery { is_open: false, ..self.lottery },
                progress: DrawProgress::AwaitingHandle,
                ..self
            }
        }
    }

    /// What `handler` returns: the refusal, or the call that turns the given bytes into
    /// a ciphertext.
    pub open spec fn start_outcome(self, encrypted_winning_number: Vec<u8>) -> Result<Request, LotteryError> {
        match self.refusal() {
            Some(e) => Err(e),
            None => Ok(Request::NewCiphertext { ciphertext: encrypted_winning_number }),
        }
    }

    /// A handle is awaited, and the lottery is closed by its authority without a winning
    /// number so far.
    pub open spec fn awaiting(self) -> bool {
        &&& self.progress == DrawProgress::AwaitingHandle
        &&& self.lottery.authority == self.authority
        &&& !self.lottery.is_open
        &&& self.lottery.winning_number_handle == 0
    }

    /// The state after `resume`: an awaited handle becomes the winning number; any other
    /// reply changes nothing, so the lottery stays closed.
    pub open spec fn after_reply(self, reply: Reply) -> DrawWinner {
        if self.awaiting() && reply is Handle {
            DrawWinner {
                lottery: Lottery { winning_number_handle: reply->Handle_0, ..self.lottery },
                progress: DrawProgress::Finished,
                ..self
            }
        } else {
            self
        }
    }

    /// What `resume` returns.
    pub open spec fn reply_outcome(self, reply: Reply) -> Result<Option<Request>, LotteryError> {
        if !self.awaiting() {
            Err(LotteryError::NoCallPending)
        } else if reply is Handle {
            Ok(None)
        } else {
            Err(LotteryError::ExternalCall)
        }
    }
}

/// Starts a draw: closes the lottery and asks for the ciphertext of the winning number.
pub fn handler(accounts: &mut DrawWinner, encrypted_winning_number: Vec<u8>) -> (r: Result<
    Request,
    LotteryError,
>)
    ensures
        r == old(accounts).start_outcome(encrypted_winning_number),
        *final(accounts) == old(accounts).after_start(),
        old(accounts).lottery.wf() ==> final(accounts).lottery.wf(),
{
    if !accounts.lottery.authority.same(&accounts.authority) {
        return Err(LotteryError::Unauthorized);
    }
    if !accounts.lottery.is_open {
        return Err(LotteryError::LotteryClosed);
    }
    accounts.lottery.is_open = false;
    accounts.progress = DrawProgress::AwaitingHandle;
    Ok(Request::NewCiphertext { ciphertext: encrypted_winning_number })
}

/// Takes the reply to the pending call of a draw.
pub fn resume(accounts: &mut DrawWinner, reply: Reply) -> (r: Result<Option<Request>, LotteryError>)
    ensures
        r == old(accounts).reply_outcome(reply),
        *final(accounts) == old(accounts).after_reply(reply),
        old(accounts).lottery.wf() ==> final(accounts).lottery.wf(),
{
    let pending = match accounts.progress {
        DrawProgress::AwaitingHandle => true,
        _ => false,
    };
    if !pending || !accounts.lottery.authority.same(&accounts.authority) || accounts.lottery.is_open
        || accounts.lottery.winning_number_handle != 0 {
        return Err(LotteryError::NoCallPending);
    }
    match reply {
        Reply::Handle(handle) => {
            accounts.lottery.winning_number_handle = handle;
            accounts.progress = DrawProgress::Finished;
            Ok(None)
        },
        _ => Err(LotteryError::ExternalCall),
    }
}

} // verus!
