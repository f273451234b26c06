//! Legacy activation bytes.
//!
//! The legacy whole-file format is keyed by a 4-byte activation code. The
//! service returns it inside a binary blob of at least 568 bytes; the code
//! sits as a little-endian 32-bit value exactly 568 bytes before the end,
//! and is rendered for storage and display as eight lowercase hexadecimal
//! characters.

use vstd::prelude::*;
use crate::encoding::{hex_decode, hex_decode_chars, hex_encode, hex_encode_chars};

verus! {

/// Size of the trailing section of the activation response that holds the
/// code.
pub const ACTIVATION_BLOB_LEN: usize = 568;

/// The 32-bit value four bytes spell in little-endian order.
pub open spec fn le_u32_of(b: Seq<u8>) -> u32
    recommends
        b.len() == 4,
{
    (b[0] + b[1] * 0x100 + b[2] * 0x10000 + b[3] * 0x1000000) as u32
}

/// The four bytes of a 32-bit value in big-endian order, as the canonical
/// hexadecimal rendering writes them.
pub open spec fn be_bytes_of(code: u32) -> Seq<u8> {
    seq![
        (code / 0x1000000) as u8,
        ((code / 0x10000) % 0x100) as u8,
        ((code / 0x100) % 0x100) as u8,
        (code % 0x100) as u8,
    ]
}

/// The activation code a blob carries: the little-endian 32-bit value 568
/// bytes before the end, or `None` where the blob is shorter than that.
pub open spec fn spec_extract_activation_bytes(blob: Seq<u8>) -> Option<u32> {
    if blob.len() >= 568 {
        Some(le_u32_of(blob.subrange(blob.len() - 568, blob.len() - 564)))
    } else {
        None
    }
}

/// Extracts the activation code from a service response blob.
pub fn extract_activation_bytes(blob: &[u8]) -> (r: Option<u32>)
    ensures
        r == spec_extract_activation_bytes(blob@),
{
    if blob.len() < ACTIVATION_BLOB_LEN {
        return None;
    }
    let offset = blob.len() - ACTIVATION_BLOB_LEN;
    let b0 = blob[offset];
    let b1 = blob[offset + 1];
    let b2 = blob[offset + 2];
    let b3 = blob[offset + 3];
    let code: u32 = (b0 as u32) + (b1 as u32) * 0x100 + (b2 as u32) * 0x10000 + (b3 as u32)
        * 0x1000000;
    proof {
        let window = blob@.subrange(blob@.len() - 568, blob@.len() - 564);
        assert(window[0] == b0 && window[1] == b1 && window[2] == b2 && window[3] == b3);
    }
    Some(code)
}

/// Renders an activation code as its eight lowercase hexadecimal
/// characters, most significant first.
pub fn format_activation_bytes(code: u32) -> (r: String)
    ensures
        r@ == hex_encode_chars(be_bytes_of(code)),
{
    let mut bytes: Vec<u8> = Vec::new();
    bytes.push((code / 0x1000000) as u8);
    bytes.push(((code / 0x10000) % 0x100) as u8);
    bytes.push(((code / 0x100) % 0x100) as u8);
    bytes.push((code % 0x100) as u8);
    proof {
        assert(bytes@ =~= be_bytes_of(code));
    }
    hex_encode(bytes.as_slice())
}

/// The activation code eight hexadecimal characters spell, or `None` where
/// the text is not exactly four bytes of hexadecimal.
pub open spec fn spec_parse_activation_bytes(s: Seq<char>) -> Option<u32> {
    match hex_decode_chars(s) {
        Option::Some(v) => if v.len() == 4 {
            Some(
                (v[3] + v[2] * 0x100 + v[1] * 0x10000 + v[0] * 0x1000000) as u32,
            )
        } else {
            None
        },
        Option::None => None,
    }
}

/// Parses an eight-character hexadecimal activation code.
pub fn parse_activation_bytes(s: &str) -> (r: Option<u32>)
    ensures
        r == spec_parse_activation_bytes(s@),
{
    let decoded = match hex_decode(s) {
        Some(v) => v,
        None => {
            return None;
        },
    };
    if decoded.len() != 4 {
        return None;
    }
    let code: u32 = (decoded[3] as u32) + (decoded[2] as u32) * 0x100 + (decoded[1] as u32)
        * 0x10000 + (decoded[0] as u32) * 0x1000000;
    Some(code)
}

/// Whether a string is a well-formed activation code: exactly four bytes of
/// hexadecimal.
pub fn validate_activation_bytes(s: &str) -> (r: bool)
    ensures
        r == (spec_parse_activation_bytes(s@) is Some),
{
    parse_activation_bytes(s).is_some()
}

/// Rendering an activation code and parsing it back yields the code.
pub proof fn lemma_activation_round_trip(code: u32)
    ensures
        spec_parse_activation_bytes(hex_encode_chars(be_bytes_of(code))) == Some(code),
{
    crate::encoding::lemma_hex_round_trip(be_bytes_of(code));
    let v = be_bytes_of(code);
    let b0: u64 = v[0] as u64;
    let b1: u64 = v[1] as u64;
    let b2: u64 = v[2] as u64;
    let b3: u64 = v[3] as u64;
    let wide: u64 = code as u64;
    assert(b3 + b2 * 0x100 + b1 * 0x10000 + b0 * 0x1000000 == wide) by (bit_vector)
        requires
            wide < 0x100000000,
            b0 == wide / 0x1000000,
            b1 == (wide / 0x10000) % 0x100,
            b2 == (wide / 0x100) % 0x100,
            b3 == wide % 0x100,
    ;
}

} // verus!
