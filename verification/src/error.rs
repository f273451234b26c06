//! Failure taxonomy of the core.
//!
//! Callers are expected to branch on the variant, not on a message: only
//! `ApiRequestFailed` (and transient transport failures during a download)
//! are sensible to retry; the others are fatal for the content item.

use vstd::prelude::*;

verus! {

/// One failure of license acquisition, key derivation or download control.
#[derive(Debug, Clone)]
pub enum CoreError {
    /// Transport-level failure contacting the license endpoint.
    /// Safe to retry with backoff.
    ApiRequestFailed(String),
    /// The response body did not match the expected shape. Carries the raw
    /// body, truncated, for diagnosis; not retried without changing the
    /// request.
    InvalidApiResponse { message: String, response_body: Option<String> },
    /// The license carries no offline download URL. Fatal for the item.
    MissingOfflineUrl,
    /// The license carries neither a structured voucher nor an encrypted
    /// blob although its DRM type calls for decryption material.
    MissingDecryptionMaterial,
    /// Malformed encoding or a failed cipher step: the license is corrupt
    /// or unsupported. Fatal; the recovery path is a fresh license fetch.
    InvalidInput(String),
    /// The server answered a byte-range resume request with a status other
    /// than partial content; appending would duplicate data. The caller
    /// must restart from zero.
    ResumeNotSupported,
    /// The operation is acknowledged but not built.
    NotImplemented(String),
    /// The client lacks state the operation needs, such as an identity for
    /// decrypting an opaque license blob.
    InvalidState(String),
}

/// Shortens a string for diagnostics: at most `max_len` characters, with an
/// ellipsis marking the cut.
pub fn truncate(s: &str, max_len: usize) -> (r: String)
    ensures
        s@.len() <= max_len ==> r@ == s@,
        s@.len() > max_len ==> r@ == s@.subrange(0, max_len as int) + "..."@,
{
    let n = s.unicode_len();
    if n <= max_len {
        s.to_owned()
    } else {
        let mut out = s.substring_char(0, max_len).to_owned();
        out.append("...");
        out
    }
}

} // verus!
