use vstd::prelude::*;

verus! {

/// The byte at position `i`, or zero past the end.
pub open spec fn byte_or_zero(bytes: Seq<u8>, i: int) -> nat {
    if 0 <= i < bytes.len() { bytes[i] as nat } else { 0 }
}

/// The first eight bytes read as a little-endian number, with missing bytes read as zero.
pub open spec fn decoded_amount(bytes: Seq<u8>) -> nat {
    byte_or_zero(bytes, 0)
        + 0x100 * byte_or_zero(bytes, 1)
        + 0x1_0000 * byte_or_zero(bytes, 2)
        + 0x100_0000 * byte_or_zero(bytes, 3)
        + 0x1_0000_0000 * byte_or_zero(bytes, 4)
        + 0x100_0000_0000 * byte_or_zero(bytes, 5)
        + 0x1_0000_0000_0000 * byte_or_zero(bytes, 6)
        + 0x100_0000_0000_0000 * byte_or_zero(bytes, 7)
}

fn byte_at(plaintext: &[u8], i: usize) -> (b: u64)
    ensures
        b == byte_or_zero(plaintext@, i as int),
        b <= 255,
{
    if i < plaintext.len() { plaintext[i] as u64 } else { 0 }
}

/// Decodes a proven plaintext into an amount.
pub fn parse_plaintext_to_u64(plaintext: &[u8]) -> (amount: u64)
    ensures
        amount == decoded_amount(plaintext@),
{
    byte_at(plaintext, 0)
        + 0x100 * byte_at(plaintext, 1)
        + 0x1_0000 * byte_at(plaintext, 2)
        + 0x100_0000 * byte_at(plaintext, 3)
        + 0x1_0000_0000 * byte_at(plaintext, 4)
        + 0x100_0000_0000 * byte_at(plaintext, 5)
        + 0x1_0000_0000_0000 * byte_at(plaintext, 6)
        + 0x100_0000_0000_0000 * byte_at(plaintext, 7)
}

} // verus!
