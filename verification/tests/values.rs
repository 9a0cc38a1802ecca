use private_lottery::error::{ErrorKind, LotteryError};
use private_lottery::plaintext::parse_plaintext_to_u64;
use anchor_lang::prelude::Pubkey;
use private_lottery::state::Identity;
use private_lottery::vault::{authorize_vault, confirm_vault, payout, vault_tag, VaultSigner};

fn all_errors() -> Vec<LotteryError> {
    vec![
        LotteryError::Unauthorized,
        LotteryError::LotteryClosed,
        LotteryError::NotOwner,
        LotteryError::AlreadyClaimed,
        LotteryError::NotChecked,
        LotteryError::NotClaimed,
        LotteryError::NotWinner,
        LotteryError::InvalidTicketPrice,
        LotteryError::NotDrawn,
        LotteryError::AlreadyWithdrawn,
        LotteryError::NoCallPending,
        LotteryError::ExternalCall,
        LotteryError::InvalidVault,
    ]
}

#[test]
fn four_bytes_decode_zero_extended() {
    assert_eq!(parse_plaintext_to_u64(&[42, 0, 0, 0]), 42);
}

#[test]
fn empty_plaintext_decodes_to_zero() {
    assert_eq!(parse_plaintext_to_u64(&[]), 0);
}

#[test]
fn eight_bytes_decode_little_endian() {
    assert_eq!(parse_plaintext_to_u64(&[1, 2, 3, 4, 5, 6, 7, 8]), 0x0807_0605_0403_0201);
    assert_eq!(parse_plaintext_to_u64(&[255; 8]), u64::MAX);
    assert_eq!(parse_plaintext_to_u64(&[0, 1]), 256);
    assert_eq!(parse_plaintext_to_u64(&[0, 0, 0, 0, 0, 0, 0, 128]), 1 << 63);
}

#[test]
fn bytes_past_the_eighth_are_ignored() {
    assert_eq!(parse_plaintext_to_u64(&[100, 0, 0, 0, 0, 0, 0, 0, 1, 2, 3]), 100);
    assert_eq!(parse_plaintext_to_u64(&[0, 0, 0, 0, 0, 0, 0, 0, 1, 0, 0, 0, 0, 0, 0, 0]), 0);
}

#[test]
fn decoding_agrees_with_the_standard_library() {
    for value in [0u64, 1, 255, 256, 65_535, 1 << 32, 123_456_789_012, u64::MAX] {
        let bytes = value.to_le_bytes();
        assert_eq!(parse_plaintext_to_u64(&bytes), value);
        let mut long = bytes.to_vec();
        long.extend_from_slice(&[7, 7]);
        assert_eq!(parse_plaintext_to_u64(&long), value);
    }
}

#[test]
fn payout_is_the_smaller_amount() {
    assert_eq!(payout(100, 40), 40);
    assert_eq!(payout(40, 100), 40);
    assert_eq!(payout(0, 100), 0);
    assert_eq!(payout(100, 0), 0);
    assert_eq!(payout(u64::MAX, u64::MAX), u64::MAX);
}

#[test]
fn the_vault_tag_is_spelled_out() {
    assert_eq!(vault_tag(), b"vault".to_vec());
}

#[test]
fn every_error_has_a_code_of_its_own() {
    let errors = all_errors();
    for (i, a) in errors.iter().enumerate() {
        for (j, b) in errors.iter().enumerate() {
            assert_eq!(a.code() == b.code(), i == j);
        }
    }
    assert_eq!(LotteryError::Unauthorized.code(), 6000);
    assert_eq!(LotteryError::ExternalCall.code(), 6011);
    assert_eq!(LotteryError::InvalidVault.code(), 6012);
}

#[test]
fn every_error_has_its_family() {
    let kinds: Vec<ErrorKind> = all_errors().into_iter().map(|e| e.kind()).collect();
    assert_eq!(
        kinds,
        vec![
            ErrorKind::Authorization,
            ErrorKind::State,
            ErrorKind::Authorization,
            ErrorKind::State,
            ErrorKind::State,
            ErrorKind::State,
            ErrorKind::Validation,
            ErrorKind::Validation,
            ErrorKind::State,
            ErrorKind::State,
            ErrorKind::State,
            ErrorKind::ExternalCall,
            ErrorKind::Validation,
        ]
    );
}

fn derived_vault(lottery: &Identity, program: &Identity) -> (Identity, u8) {
    let program_id = Pubkey::new_from_array(program.bytes);
    let (address, bump) = Pubkey::find_program_address(&[b"vault", &lottery.bytes], &program_id);
    (Identity { bytes: address.to_bytes() }, bump)
}

#[test]
fn the_derived_vault_is_authorized() {
    for seed in [0u8, 1, 7, 99, 255] {
        let lottery = Identity { bytes: [seed; 32] };
        let program = Identity { bytes: [seed.wrapping_add(3); 32] };
        let (vault, bump) = derived_vault(&lottery, &program);
        assert_ne!(vault, lottery);
        assert_ne!(vault, program);
        assert_eq!(authorize_vault(&vault, &lottery, bump, &program), Ok(VaultSigner { lottery, bump }));
    }
}

#[test]
fn another_address_is_no_vault() {
    let lottery = Identity { bytes: [5; 32] };
    let program = Identity { bytes: [6; 32] };
    let (vault, bump) = derived_vault(&lottery, &program);
    assert_eq!(authorize_vault(&lottery, &lottery, bump, &program), Err(LotteryError::InvalidVault));
    assert_eq!(authorize_vault(&vault, &program, bump, &program), Err(LotteryError::InvalidVault));
    assert_eq!(authorize_vault(&vault, &lottery, bump, &lottery), Err(LotteryError::InvalidVault));
    let mut off_by_one = vault;
    off_by_one.bytes[31] ^= 1;
    assert_eq!(authorize_vault(&off_by_one, &lottery, bump, &program), Err(LotteryError::InvalidVault));
    for other in 0..=255u8 {
        if other != bump {
            assert_eq!(authorize_vault(&vault, &lottery, other, &program), Err(LotteryError::InvalidVault));
        }
    }
}

#[test]
fn a_derivation_counts_only_for_its_address() {
    let lottery = Identity { bytes: [5; 32] };
    let vault = Identity { bytes: [8; 32] };
    assert_eq!(confirm_vault(Some(vault), &vault, &lottery, 250), Ok(VaultSigner { lottery, bump: 250 }));
    assert_eq!(confirm_vault(Some(lottery), &vault, &lottery, 250), Err(LotteryError::InvalidVault));
    assert_eq!(confirm_vault(None, &vault, &lottery, 250), Err(LotteryError::InvalidVault));
}
