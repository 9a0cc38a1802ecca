use vstd::prelude::*;
use anchor_lang::prelude::Pubkey;
use crate::error::LotteryError;
use crate::state::Identity;

verus! {

/// The derivation that stands in for a vault's signature: the fixed tag, the address of
/// the lottery and the stored derivation factor. There is no private key.
#[derive(Clone, Copy, Debug, PartialEq, Eq)]
pub struct VaultSigner {
    pub lottery: Identity,
    pub bump: u8,
}

/// The bytes of the fixed tag, "vault" in ASCII.
pub open spec fn vault_tag_spec() -> Seq<u8> {
    seq![118u8, 97u8, 117u8, 108u8, 116u8]
}

/// The fixed tag that every vault address is derived from.
pub fn vault_tag() -> (tag: Vec<u8>)
    ensures
        tag@ == vault_tag_spec(),
{
    let tag = vec![118u8, 97u8, 117u8, 108u8, 116u8];
    assert(tag@ =~= vault_tag_spec());
    tag
}

/// The seeds of a lottery's vault: the tag, the 32 bytes of the lottery's address, and
/// the derivation factor as a single byte.
pub open spec fn vault_seeds(lottery: Identity, bump: u8) -> Seq<Seq<u8>> {
    seq![vault_tag_spec(), lottery.bytes@, seq![bump]]
}

/// The address that `Pubkey::create_program_address` derives from the seeds for the
/// program, or `None` where it reports an error.
pub uninterp spec fn program_address(seeds: Seq<Seq<u8>>, program: Seq<u8>) -> Option<Seq<u8>>;

/// The bytes of an address that may be missing.
pub open spec fn address_bytes(address: Option<Identity>) -> Option<Seq<u8>> {
    match address {
        Some(a) => Some(a.bytes@),
        None => None,
    }
}

/// Calls `Pubkey::create_program_address` on the three seeds `tag`, the bytes of
/// `lottery` and the one byte `bump`, for the program `program`. Nothing is proved of
/// it: the contract only gives the result its name, with the outside error as `None`.
/// The call hashes its arguments and is the same on every machine.
#[verifier::external_body]
fn create_program_address(tag: &Vec<u8>, lottery: &Identity, bump: u8, program: &Identity) -> (address: Option<
    Identity,
>)
    ensures
        address_bytes(address) == program_address(seq![tag@, lottery.bytes@, seq![bump]], program.bytes@),
{
    let program_id = Pubkey::new_from_array(program.bytes);
    let bump_seed = [bump];
    let seeds: [&[u8]; 3] = [tag.as_slice(), &lottery.bytes, &bump_seed];
    match Pubkey::create_program_address(&seeds, &program_id) {
        Ok(address) => Some(Identity { bytes: address.to_bytes() }),
        Err(_) => None,
    }
}

/// What a derivation is worth: it signs for `vault` exactly if it led to that address.
pub open spec fn vault_authorization(derived: Option<Identity>, vault: Identity, lottery: Identity, bump: u8) -> Result<
    VaultSigner,
    LotteryError,
> {
    if derived == Some(vault) {
        Ok(VaultSigner { lottery, bump })
    } else {
        Err(LotteryError::InvalidVault)
    }
}

/// Holds a derived address against the vault that funds are to leave.
pub fn confirm_vault(derived: Option<Identity>, vault: &Identity, lottery: &Identity, bump: u8) -> (r: Result<
    VaultSigner,
    LotteryError,
>)
    ensures
        r == vault_authorization(derived, *vault, *lottery, bump),
{
    match derived {
        Some(address) => {
            if address.same(vault) {
                Ok(VaultSigner { lottery: *lottery, bump })
            } else {
                Err(LotteryError::InvalidVault)
            }
        },
        None => Err(LotteryError::InvalidVault),
    }
}

/// Re-derives the vault of `lottery` with the stored derivation factor and hands out the
/// signing capability only if the derivation leads to `vault`.
pub fn authorize_vault(vault: &Identity, lottery: &Identity, bump: u8, program: &Identity) -> (r: Result<
    VaultSigner,
    LotteryError,
>)
    ensures
        r is Ok <==> program_address(vault_seeds(*lottery, bump), program.bytes@) == Some(vault.bytes@),
        r is Ok ==> r->Ok_0.lottery == *lottery && r->Ok_0.bump == bump,
        r is Err ==> r->Err_0 == LotteryError::InvalidVault,
{
    let tag = vault_tag();
    let derived = create_program_address(&tag, lottery, bump, program);
    proof {
        if derived is Some && derived->Some_0.bytes@ == vault.bytes@ {
            assert(derived->Some_0.bytes =~= vault.bytes);
        }
    }
    confirm_vault(derived, vault, lottery, bump)
}

/// The smaller of two amounts.
pub open spec fn spec_min(a: u64, b: u64) -> u64 {
    if a <= b { a } else { b }
}

/// What leaves a vault that holds `available` when `requested` is asked for.
pub fn payout(available: u64, requested: u64) -> (paid: u64)
    ensures
        paid == spec_min(available, requested),
{
    if available <= requested { available } else { requested }
}

/// What a vault that held `available` holds after `requested` was asked for.
pub open spec fn balance_after(available: u64, requested: u64) -> u64 {
    (available - spec_min(available, requested)) as u64
}

} // verus!
