//! Client-side core for acquiring DRM download licenses, deriving the
//! decryption keys they carry, and driving a resumable byte-range download.
//!
//! The network transport itself lives outside this crate; everything here is
//! the decision and transformation logic: request construction, voucher
//! decoding, key derivation, file-type classification, the download state
//! machine and its progress model.

pub mod activation;
pub mod crypto;
pub mod customer;
pub mod download;
pub mod encoding;
pub mod error;
pub mod identity;
pub mod license;
pub mod progress;
