use vstd::prelude::*;

verus! {

/// A principal or an address: 32 bytes.
#[derive(Clone, Copy, Debug, PartialEq, Eq)]
pub struct Identity {
    pub bytes: [u8; 32],
}

impl Identity {
    /// Whether two identities are the same, byte for byte.
    pub fn same(&self, other: &Identity) -> (yes: bool)
        ensures
            yes == (*self == *other),
    {
        let mut i: usize = 0;
        while i < 32
            invariant
                i <= 32,
                forall|k: int| 0 <= k < i ==> self.bytes[k] == other.bytes[k],
            decreases 32 - i,
        {
            if self.bytes[i] != other.bytes[i] {
                return false;
            }
            i += 1;
        }
        assert(self.bytes =~= other.bytes);
        true
    }
}

/// One lottery.
#[derive(Clone, Copy, Debug, PartialEq, Eq)]
pub struct Lottery {
    pub id: u64,
    pub authority: Identity,
    pub ticket_price: u64,
    pub is_open: bool,
    /// Ciphertext handle of the winning number; 0 while unset.
    pub winning_number_handle: u128,
}

impl Lottery {
    /// A ticket costs something, and an open lottery has no winning number yet.
    pub open spec fn wf(self) -> bool {
        &&& self.ticket_price > 0
        &&& self.is_open ==> self.winning_number_handle == 0
    }
}

/// One purchased ticket.
#[derive(Clone, Copy, Debug, PartialEq, Eq)]
pub struct Ticket {
    /// Address of the lottery that the ticket was bought in.
    pub lottery: Identity,
    pub owner: Identity,
    /// Ciphertext handle of the buyer's guess.
    pub guess_handle: u128,
    /// Ciphertext handle of the encrypted verdict; 0 until checked.
    pub is_winner_handle: u128,
    /// Ciphertext handle of the encrypted prize; 0 until claimed.
    pub prize_handle: u128,
    pub claimed: bool,
    /// Set once the prize has left the vault.
    pub withdrawn: bool,
}

impl Ticket {
    /// Only a claimed ticket has a prize handle, and only a claimed ticket with a prize
    /// handle was ever paid out.
    pub open spec fn wf(self) -> bool {
        &&& !self.claimed ==> self.prize_handle == 0
        &&& self.withdrawn ==> self.claimed && self.prize_handle != 0
    }

    /// A ticket as it is right after purchase.
    pub open spec fn fresh(lottery: Identity, owner: Identity, guess_handle: u128) -> Ticket {
        Ticket {
            lottery,
            owner,
            guess_handle,
            is_winner_handle: 0,
            prize_handle: 0,
            claimed: false,
            withdrawn: false,
        }
    }
}

} // verus!
