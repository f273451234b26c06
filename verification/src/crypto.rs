//! Key derivation for opaque license blobs.
//!
//! An encrypted license blob is opened with AES-128-CBC; the 16-byte key and
//! 16-byte IV are the two halves of a SHA-256 digest over the device type,
//! device serial, account identifier and content identifier, concatenated in
//! that order with no separators. Decrypted plaintext is padded with
//! trailing NUL bytes, which are dropped before it is read as text.

use vstd::prelude::*;
use sha2::Digest;
use cbc::cipher::{BlockDecryptMut, KeyIvInit};

verus! {

/// The SHA-256 digest of a byte sequence.
pub uninterp spec fn sha256_of(bytes: Seq<u8>) -> Seq<u8>;

/// Relies on `sha2::Sha256::digest`: the digest depends on the input bytes
/// alone and is 32 bytes long.
#[verifier::external_body]
pub(crate) fn sha256_digest(bytes: &[u8]) -> (r: Vec<u8>)
    ensures
        r@ == sha256_of(bytes@),
        r@.len() == 32,
{
    sha2::Sha256::digest(bytes).to_vec()
}

/// The AES-128-CBC decryption of a whole-block ciphertext under a 16-byte
/// key and IV, with no padding removed.
pub uninterp spec fn aes128_cbc_decrypt_of(key: Seq<u8>, iv: Seq<u8>, ciphertext: Seq<u8>) -> Seq<u8>;

/// Relies on `cbc::Decryptor::<aes::Aes128>::new_from_slices` and
/// `decrypt_padded_mut::<NoPadding>`: with a 16-byte key and IV the cipher
/// is always constructed, decryption succeeds exactly when the input is a
/// whole number of 16-byte blocks, the plaintext is as long as the
/// ciphertext, and it depends on key, IV and ciphertext alone.
#[verifier::external_body]
pub(crate) fn aes128_cbc_decrypt(key: &[u8], iv: &[u8], ciphertext: &[u8]) -> (r: Option<Vec<u8>>)
    requires
        key@.len() == 16,
        iv@.len() == 16,
    ensures
        r is Some <==> ciphertext@.len() % 16 == 0,
        r matches Some(p) ==> p@ == aes128_cbc_decrypt_of(key@, iv@, ciphertext@)
            && p@.len() == ciphertext@.len(),
{
    let cipher = match cbc::Decryptor::<aes::Aes128>::new_from_slices(key, iv) {
        Ok(c) => c,
        Err(_) => return None,
    };
    let mut buffer = ciphertext.to_vec();
    match cipher.decrypt_padded_mut::<cbc::cipher::block_padding::NoPadding>(&mut buffer) {
        Ok(plaintext) => Some(plaintext.to_vec()),
        Err(_) => None,
    }
}

/// A byte sequence with its trailing zero bytes dropped.
pub open spec fn trim_trailing_zeros(s: Seq<u8>) -> Seq<u8>
    decreases s.len(),
{
    if s.len() > 0 && s.last() == 0 {
        trim_trailing_zeros(s.drop_last())
    } else {
        s
    }
}

/// Drops the trailing zero bytes of a vector.
pub fn strip_trailing_zeros(v: &mut Vec<u8>)
    ensures
        final(v)@ == trim_trailing_zeros(old(v)@),
{
    let mut j: usize = v.len();
    proof {
        assert(v@.subrange(0, j as int) =~= v@);
    }
    while j > 0 && v[j - 1] == 0
        invariant
            j <= v@.len(),
            trim_trailing_zeros(v@) == trim_trailing_zeros(v@.subrange(0, j as int)),
        decreases j,
    {
        proof {
            let cur = v@.subrange(0, j as int);
            assert(cur.last() == v@[j as int - 1]);
            assert(cur.drop_last() =~= v@.subrange(0, j as int - 1));
        }
        j = j - 1;
    }
    proof {
        let cur = v@.subrange(0, j as int);
        if j > 0 {
            assert(cur.last() == v@[j as int - 1]);
        }
        assert(trim_trailing_zeros(cur) == cur);
    }
    v.truncate(j);
}

/// The identifiers an opaque license blob is keyed by. Built per request
/// from the identity context and the target content identifier; never
/// cached.
pub struct KeyDerivationContext {
    /// Device type identifier.
    pub device_type: String,
    /// Device serial number.
    pub device_serial: String,
    /// Account identifier.
    pub account_id: String,
    /// Content identifier of the item the license is for.
    pub content_id: String,
}

/// The 32-byte digest the derived key and IV are cut from: SHA-256 over the
/// UTF-8 bytes of the four identifiers concatenated in order, with no
/// separators.
pub open spec fn derivation_digest(
    device_type: Seq<char>,
    device_serial: Seq<char>,
    account_id: Seq<char>,
    content_id: Seq<char>,
) -> Seq<u8> {
    sha256_of(vstd::utf8::encode_utf8(device_type + device_serial + account_id + content_id))
}

impl KeyDerivationContext {
    /// The digest this context derives.
    pub open spec fn digest(&self) -> Seq<u8> {
        derivation_digest(
            self.device_type@,
            self.device_serial@,
            self.account_id@,
            self.content_id@,
        )
    }

    /// Derives the cipher parameters: key is the first half of the digest,
    /// IV the second.
    pub fn derive_key_iv(&self) -> (r: (Vec<u8>, Vec<u8>))
        ensures
            r.0@ == self.digest().subrange(0, 16),
            r.1@ == self.digest().subrange(16, 32),
            r.0@.len() == 16,
            r.1@.len() == 16,
    {
        let mut joined = self.device_type.clone();
        joined.append(self.device_serial.as_str());
        joined.append(self.account_id.as_str());
        joined.append(self.content_id.as_str());
        let digest = sha256_digest(joined.as_str().as_bytes());
        let key = vstd::slice::slice_to_vec(vstd::slice::slice_subrange(
            digest.as_slice(),
            0,
            16,
        ));
        let iv = vstd::slice::slice_to_vec(vstd::slice::slice_subrange(
            digest.as_slice(),
            16,
            32,
        ));
        (key, iv)
    }
}

/// Key derivation is deterministic: two contexts that agree on device type,
/// device serial, account identifier and content identifier derive the same
/// 32-byte digest, and therefore the same key and IV.
pub proof fn lemma_key_derivation_deterministic(a: KeyDerivationContext, b: KeyDerivationContext)
    requires
        a.device_type@ == b.device_type@,
        a.device_serial@ == b.device_serial@,
        a.account_id@ == b.account_id@,
        a.content_id@ == b.content_id@,
    ensures
        a.digest() == b.digest(),
{
}

} // verus!
