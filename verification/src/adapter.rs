use vstd::prelude::*;
use crate::state::Identity;
use crate::vault::VaultSigner;

verus! {

/// A call that the host has to make on behalf of a lifecycle operation.
#[derive(Debug, PartialEq, Eq)]
pub enum Request {
    /// Turn caller-supplied encrypted bytes into a ciphertext handle.
    NewCiphertext { ciphertext: Vec<u8> },
    /// Encrypt a plain value into a ciphertext handle.
    Encrypt { value: u128 },
    /// Compare two ciphertexts; the answer is the handle of an encrypted boolean.
    Equal { lhs: u128, rhs: u128 },
    /// Pick one of two ciphertexts by an encrypted condition.
    Select { condition: u128, if_true: u128, if_false: u128 },
    /// Check, against the proof that came with the caller's transaction, that `plaintext`
    /// is a decryption of `handle_bytes` that `prover` is entitled to.
    VerifyDecryption { handle_bytes: Vec<u8>, plaintext: Vec<u8>, prover: Identity },
    /// Let `allowed` decrypt the ciphertext behind `handle`.
    Allow { handle: u128, allowed: Identity },
    /// Collect `amount` from `payer` into the vault of `lottery`.
    Collect { amount: u64, payer: Identity, lottery: Identity },
    /// Move `amount` from the vault to `recipient`, signed by the vault's derivation.
    Release { amount: u64, signer: VaultSigner, recipient: Identity },
}

/// What the host reports back after making a call.
#[derive(Clone, Copy, Debug, PartialEq, Eq, Structural)]
pub enum Reply {
    /// The call produced this ciphertext handle.
    Handle(u128),
    /// The call succeeded and produced nothing.
    Done,
    /// The call failed.
    Rejected,
}

} // verus!
