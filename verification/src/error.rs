use vstd::prelude::*;

verus! {

/// The four families an error belongs to.
#[derive(Clone, Copy, Debug, PartialEq, Eq, Structural)]
pub enum ErrorKind {
    /// The caller is not the authority or owner that the action asks for.
    Authorization,
    /// The action was attempted out of lifecycle order.
    State,
    /// An argument, or the decoded withdrawal amount, is not acceptable.
    Validation,
    /// The confidential-computation service or the vault refused a call.
    ExternalCall,
}

/// Every way in which a lifecycle operation can fail.
#[derive(Clone, Copy, Debug, PartialEq, Eq, Structural)]
pub enum LotteryError {
    /// Only the lottery's authority may draw.
    Unauthorized,
    /// The lottery is already closed.
    LotteryClosed,
    /// The caller does not own the ticket.
    NotOwner,
    /// The ticket was already claimed.
    AlreadyClaimed,
    /// The handle that the step depends on is still unset.
    NotChecked,
    /// The ticket was not claimed yet.
    NotClaimed,
    /// The proven prize amount is zero.
    NotWinner,
    /// A lottery cannot have a ticket price of zero.
    InvalidTicketPrice,
    /// No winning number was drawn yet.
    NotDrawn,
    /// The prize of this ticket was already paid out.
    AlreadyWithdrawn,
    /// A reply arrived while the operation was waiting for none.
    NoCallPending,
    /// The outside service rejected the call, or answered it with the wrong kind of reply.
    ExternalCall,
    /// The given address is not the one that the lottery's vault is derived to.
    InvalidVault,
}

impl LotteryError {
    /// The family of this error.
    pub open spec fn kind_spec(self) -> ErrorKind {
        match self {
            LotteryError::Unauthorized | LotteryError::NotOwner => ErrorKind::Authorization,
            LotteryError::NotWinner | LotteryError::InvalidTicketPrice | LotteryError::InvalidVault =>
                ErrorKind::Validation,
            LotteryError::ExternalCall => ErrorKind::ExternalCall,
            _ => ErrorKind::State,
        }
    }

    /// The number under which this error is reported.
    pub open spec fn code_spec(self) -> u32 {
        match self {
            LotteryError::Unauthorized => 6000,
            LotteryError::LotteryClosed => 6001,
            LotteryError::NotOwner => 6002,
            LotteryError::AlreadyClaimed => 6003,
            LotteryError::NotChecked => 6004,
            LotteryError::NotClaimed => 6005,
            LotteryError::NotWinner => 6006,
            LotteryError::InvalidTicketPrice => 6007,
            LotteryError::NotDrawn => 6008,
            LotteryError::AlreadyWithdrawn => 6009,
            LotteryError::NoCallPending => 6010,
            LotteryError::ExternalCall => 6011,
            LotteryError::InvalidVault => 6012,
        }
    }

    #[verifier::when_used_as_spec(kind_spec)]
    pub fn kind(self) -> (kind: ErrorKind)
        ensures
            kind == self.kind_spec(),
    {
        match self {
            LotteryError::Unauthorized | LotteryError::NotOwner => ErrorKind::Authorization,
            LotteryError::NotWinner | LotteryError::InvalidTicketPrice | LotteryError::InvalidVault =>
                ErrorKind::Validation,
            LotteryError::ExternalCall => ErrorKind::ExternalCall,
            _ => ErrorKind::State,
        }
    }

    #[verifier::when_used_as_spec(code_spec)]
    pub fn code(self) -> (code: u32)
        ensures
            code == self.code_spec(),
    {
        match self {
            LotteryError::Unauthorized => 6000,
            LotteryError::LotteryClosed => 6001,
            LotteryError::NotOwner => 6002,
            LotteryError::AlreadyClaimed => 6003,
            LotteryError::NotChecked => 6004,
            LotteryError::NotClaimed => 6005,
            LotteryError::NotWinner => 6006,
            LotteryError::InvalidTicketPrice => 6007,
            LotteryError::NotDrawn => 6008,
            LotteryError::AlreadyWithdrawn => 6009,
            LotteryError::NoCallPending => 6010,
            LotteryError::ExternalCall => 6011,
            LotteryError::InvalidVault => 6012,
        }
    }
}

/// Two errors that are reported under the same number are the same error.
pub proof fn lemma_codes_distinguish(a: LotteryError, b: LotteryError)
    requires
        a.code_spec() == b.code_spec(),
    ensures
        a == b,
{
}

} // verus!
