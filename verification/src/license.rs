//! License records, voucher decoding, key derivation and classification.
//!
//! A license acquisition ends in a record that carries exactly one of a
//! structured voucher (key and optional IV, already in a revealed text
//! encoding) or an opaque encrypted blob. Decoding the voucher, opening the
//! blob, and classifying the resulting key shape are pure transformations
//! and are verified here; the network call that fetches the record stays
//! outside the crate.

use vstd::prelude::*;
use crate::crypto::{
    aes128_cbc_decrypt, aes128_cbc_decrypt_of, derivation_digest, trim_trailing_zeros,
    KeyDerivationContext,
};
use crate::encoding::{
    base64_decode, base64_decode_of, hex_decode, hex_decode_chars, utf8_to_string,
};
use crate::error::CoreError;
use crate::identity::Identity;

verus! {

/// Download quality tier.
#[derive(Debug, Clone, Copy, PartialEq, Eq, Structural)]
pub enum DownloadQuality {
    /// Baseline quality.
    Normal,
    /// High quality.
    High,
    /// Highest offered quality.
    Extreme,
}

/// How the content will be consumed.
#[derive(Debug, Clone, Copy, PartialEq, Eq, Structural)]
pub enum ConsumptionType {
    /// Download for offline playback.
    Download,
    /// Streaming playback.
    Streaming,
}

/// DRM scheme of a license, as requested or as granted.
#[derive(Debug, Clone, Copy, PartialEq, Eq, Structural)]
pub enum DrmType {
    /// The provider's own DRM; keys arrive in a voucher.
    Adrm,
    /// Widevine DRM over an adaptive manifest.
    Widevine,
    /// No DRM at all.
    Unencrypted,
}

impl DrmType {
    /// Whether content under this scheme is encrypted.
    pub fn is_encrypted(&self) -> (r: bool)
        ensures
            r == (*self is Adrm || *self is Widevine),
    {
        match self {
            DrmType::Adrm => true,
            DrmType::Widevine => true,
            DrmType::Unencrypted => false,
        }
    }
}

/// Chapter structure variant a license may be asked for.
#[derive(Debug, Clone, Copy, PartialEq, Eq, Structural)]
pub enum ChapterTitlesType {
    /// A flat chapter list.
    Flat,
    /// A nested chapter tree.
    Tree,
}

/// Audio codec named in requests and content metadata.
#[derive(Debug, Clone, Copy, PartialEq, Eq, Structural)]
pub enum Codec {
    /// AAC low complexity.
    AacLc,
    /// Extended high-efficiency AAC.
    XheAac,
    /// Enhanced AC-3 spatial audio.
    Ec3,
    /// AC-4 spatial audio.
    Ac4,
}

/// Parameters of one license request.
#[derive(Debug, Clone)]
pub struct LicenseRequest {
    /// Quality tier to ask for.
    pub quality: DownloadQuality,
    /// Download or streaming consumption.
    pub consumption_type: ConsumptionType,
    /// DRM preference; must be explicit where the provider runs a typed
    /// negotiation, since the service rejects ambiguous requests.
    pub drm_type: Option<DrmType>,
    /// Chapter structure preference.
    pub chapter_titles_type: Option<ChapterTitlesType>,
    /// Whether to ask for spatial audio.
    pub request_spatial: Option<bool>,
    /// Preferred plain AAC codec.
    pub aac_codec: Option<Codec>,
    /// Preferred spatial codec.
    pub spatial_codec: Option<Codec>,
}

impl LicenseRequest {
    /// Whether the request names its DRM preference outright.
    pub open spec fn has_explicit_drm(&self) -> bool {
        self.drm_type is Some
    }
}

impl Default for LicenseRequest {
    /// The request shape used when the caller states no preference: high
    /// quality, offline download, chapter tree, no spatial audio, plain AAC.
    fn default() -> (r: Self)
        ensures
            r.quality == DownloadQuality::High,
            r.consumption_type == ConsumptionType::Download,
            r.drm_type is None,
            r.chapter_titles_type == Some(ChapterTitlesType::Tree),
            r.request_spatial == Some(false),
            r.aac_codec == Some(Codec::AacLc),
            r.spatial_codec == Some(Codec::Ec3),
    {
        LicenseRequest {
            quality: DownloadQuality::High,
            consumption_type: ConsumptionType::Download,
            drm_type: None,
            chapter_titles_type: Some(ChapterTitlesType::Tree),
            request_spatial: Some(false),
            aac_codec: Some(Codec::AacLc),
            spatial_codec: Some(Codec::Ec3),
        }
    }
}

/// The revealed decryption material inside a license: a key and an optional
/// IV, both as text in hexadecimal or Base64.
#[derive(Debug, Clone)]
pub struct Voucher {
    /// Encoded decryption key.
    pub key: String,
    /// Encoded initialization vector, absent for the legacy single-key
    /// format.
    pub iv: Option<String>,
}

/// The URL block of content metadata.
#[derive(Debug, Clone)]
pub struct ContentUrl {
    /// Direct CDN URL of the asset, where the license grants offline use.
    pub offline_url: Option<String>,
}

/// Codec reference of the delivered content.
#[derive(Debug, Clone)]
pub struct ContentReference {
    /// Codec the asset is encoded with.
    pub codec: Codec,
}

/// Content metadata carried by a license.
#[derive(Debug, Clone)]
pub struct ContentMetadata {
    /// Where the asset can be fetched.
    pub content_url: ContentUrl,
    /// What the asset is encoded as, where the service reports it.
    pub content_reference: Option<ContentReference>,
}

/// A license record as the service granted it.
#[derive(Debug, Clone)]
pub struct ContentLicense {
    /// DRM type actually granted; may differ from the requested one.
    pub drm_type: DrmType,
    /// Metadata of the licensed content.
    pub content_metadata: ContentMetadata,
    /// Structured voucher, for provider DRM.
    pub voucher: Option<Voucher>,
    /// Opaque encrypted license blob, needing secondary decryption.
    pub license_response: Option<String>,
}

/// A ready-to-use artifact: DRM type, metadata, derived keys and the
/// resolved download URL.
#[derive(Debug, Clone)]
pub struct DownloadLicense {
    /// DRM type of the content.
    pub drm_type: DrmType,
    /// Metadata of the licensed content.
    pub content_metadata: ContentMetadata,
    /// Derived decryption keys, where the DRM scheme has any.
    pub decryption_keys: Option<Vec<KeyData>>,
    /// Resolved CDN URL; typically expires within hours.
    pub download_url: String,
}

/// Decoded decryption material: raw key bytes and optional raw IV bytes.
#[derive(Debug, Clone)]
pub struct KeyData {
    /// Primary key bytes: four for the legacy format, sixteen for the
    /// paired format.
    pub key_part_1: Vec<u8>,
    /// IV bytes: absent for the legacy format, sixteen for the paired
    /// format.
    pub key_part_2: Option<Vec<u8>>,
}

/// File type implied by DRM scheme and key shape.
#[derive(Debug, Clone, Copy, PartialEq, Eq, Structural)]
pub enum FileType {
    /// Legacy whole-file format keyed by 4-byte activation bytes.
    Aax,
    /// Paired-key format keyed by a 16-byte key and 16-byte IV.
    Aaxc,
    /// Adaptive manifest format under Widevine.
    Dash,
    /// Unencrypted lossy audio.
    Mp3,
    /// No recognized combination.
    Unknown,
}

/// Output container chosen for the converted audio.
#[derive(Debug, Clone, Copy, PartialEq, Eq, Structural)]
pub enum OutputFormat {
    /// M4B audiobook container.
    M4b,
    /// Lossy MP3.
    Mp3,
}

/// View of an optional borrowed string.
pub open spec fn view_opt_str(o: Option<&str>) -> Option<Seq<char>> {
    match o {
        Option::Some(s) => Some(s@),
        Option::None => None,
    }
}

/// Key material decoded from hexadecimal text: the key, and the IV where
/// one is given; `None` where either fails to decode.
pub open spec fn decoded_via_hex(key: Seq<char>, iv: Option<Seq<char>>) -> Option<
    (Seq<u8>, Option<Seq<u8>>),
> {
    match hex_decode_chars(key) {
        Option::None => None,
        Option::Some(k) => match iv {
            Option::None => Some((k, None)),
            Option::Some(ivs) => match hex_decode_chars(ivs) {
                Option::None => None,
                Option::Some(i) => Some((k, Some(i))),
            },
        },
    }
}

/// Key material decoded from standard Base64 text, in the same shape as
/// [`decoded_via_hex`].
pub open spec fn decoded_via_base64(key: Seq<char>, iv: Option<Seq<char>>) -> Option<
    (Seq<u8>, Option<Seq<u8>>),
> {
    match base64_decode_of(key) {
        Option::None => None,
        Option::Some(k) => match iv {
            Option::None => Some((k, None)),
            Option::Some(ivs) => match base64_decode_of(ivs) {
                Option::None => None,
                Option::Some(i) => Some((k, Some(i))),
            },
        },
    }
}

/// Key material a voucher's text fields decode to. The encoding is implied
/// by the key's length: exactly 32 characters means hexadecimal, anything
/// else standard Base64.
pub open spec fn decoded_key_material(key: Seq<char>, iv: Option<Seq<char>>) -> Option<
    (Seq<u8>, Option<Seq<u8>>),
> {
    if key.len() == 32 {
        decoded_via_hex(key, iv)
    } else {
        decoded_via_base64(key, iv)
    }
}

/// The file type a key shape classifies to under a DRM scheme.
pub open spec fn spec_file_type(key1: Seq<u8>, key2: Option<Seq<u8>>, drm: DrmType) -> FileType {
    match drm {
        DrmType::Widevine => FileType::Dash,
        DrmType::Adrm => if key1.len() == 4 && key2 is None {
            FileType::Aax
        } else if key1.len() == 16 && (key2 matches Some(iv) && iv.len() == 16) {
            FileType::Aaxc
        } else {
            FileType::Unknown
        },
        DrmType::Unencrypted => FileType::Mp3,
    }
}

/// What a JSON document holds as voucher fields: the text of its top-level
/// `key` member and of its optional `iv` member, or `None` where the
/// document does not parse to such an object.
pub uninterp spec fn voucher_of_json(s: Seq<char>) -> Option<(Seq<char>, Option<Seq<char>>)>;

/// Relies on `serde_json::from_str` and `serde_json::Value::{get, as_str,
/// is_null}`: parsing depends on the text alone; `key` must be a string
/// member; `iv` may be absent, null, or a string.
#[verifier::external_body]
fn parse_voucher_json(s: &str) -> (r: Option<(String, Option<String>)>)
    ensures
        match r {
            Some(kv) => voucher_of_json(s@) == Some(
                ((kv.0)@, match kv.1 {
                    Option::Some(iv) => Some(iv@),
                    Option::None => None::<Seq<char>>,
                }),
            ),
            None => voucher_of_json(s@) is None,
        },
{
    let v: serde_json::Value = serde_json::from_str(s).ok()?;
    let key = v.get("key")?.as_str()?.to_string();
    let iv = match v.get("iv") {
        None => None,
        Some(x) if x.is_null() => None,
        Some(x) => Some(x.as_str()?.to_string()),
    };
    Some((key, iv))
}

/// The key material an opaque license blob yields under the given identity
/// fields: Base64-decode the blob, derive key and IV from the digest over
/// the identifiers, decrypt whole blocks with AES-128-CBC, drop trailing
/// NUL bytes, read the rest as UTF-8 JSON, and decode the voucher fields it
/// names. `None` wherever a step fails.
pub open spec fn derived_key_material(
    blob: Seq<char>,
    device_type: Seq<char>,
    device_serial: Seq<char>,
    account_id: Seq<char>,
    content_id: Seq<char>,
) -> Option<(Seq<u8>, Option<Seq<u8>>)> {
    match base64_decode_of(blob) {
        Option::None => None,
        Option::Some(ciphertext) => if ciphertext.len() % 16 != 0 {
            None
        } else {
            let digest = derivation_digest(device_type, device_serial, account_id, content_id);
            let plain = aes128_cbc_decrypt_of(
                digest.subrange(0, 16),
                digest.subrange(16, 32),
                ciphertext,
            );
            let trimmed = trim_trailing_zeros(plain);
            if !vstd::utf8::valid_utf8(trimmed) {
                None
            } else {
                match voucher_of_json(vstd::utf8::decode_utf8(trimmed)) {
                    Option::None => None,
                    Option::Some(kv) => decoded_key_material(kv.0, kv.1),
                }
            }
        },
    }
}

impl KeyData {
    /// The raw key material this value holds.
    pub open spec fn model(&self) -> (Seq<u8>, Option<Seq<u8>>) {
        (
            self.key_part_1@,
            match self.key_part_2 {
                Option::Some(v) => Some(v@),
                Option::None => None,
            },
        )
    }

    /// Decodes hexadecimal key text, and IV text where given.
    pub fn from_hex(key_hex: &str, iv_hex: Option<&str>) -> (r: Result<Self, CoreError>)
        ensures
            r is Ok <==> decoded_via_hex(key_hex@, view_opt_str(iv_hex)) is Some,
            r matches Ok(kd) ==> Some(kd.model()) == decoded_via_hex(
                key_hex@,
                view_opt_str(iv_hex),
            ),
            r matches Err(e) ==> e is InvalidInput,
    {
        let key_bytes = match hex_decode(key_hex) {
            Some(b) => b,
            None => {
                return Err(CoreError::InvalidInput("invalid hex key".to_owned()));
            },
        };
        let iv_bytes = match iv_hex {
            Some(iv_str) => match hex_decode(iv_str) {
                Some(b) => Some(b),
                None => {
                    return Err(CoreError::InvalidInput("invalid hex IV".to_owned()));
                },
            },
            None => None,
        };
        Ok(KeyData { key_part_1: key_bytes, key_part_2: iv_bytes })
    }

    /// Decodes standard Base64 key text, and IV text where given.
    pub fn from_base64(key: &str, iv: Option<&str>) -> (r: Result<Self, CoreError>)
        ensures
            r is Ok <==> decoded_via_base64(key@, view_opt_str(iv)) is Some,
            r matches Ok(kd) ==> Some(kd.model()) == decoded_via_base64(key@, view_opt_str(iv)),
            r matches Err(e) ==> e is InvalidInput,
    {
        let key_bytes = match base64_decode(key) {
            Some(b) => b,
            None => {
                return Err(CoreError::InvalidInput("invalid base64 key".to_owned()));
            },
        };
        let iv_bytes = match iv {
            Some(iv_str) => match base64_decode(iv_str) {
                Some(b) => Some(b),
                None => {
                    return Err(CoreError::InvalidInput("invalid base64 IV".to_owned()));
                },
            },
            None => None,
        };
        Ok(KeyData { key_part_1: key_bytes, key_part_2: iv_bytes })
    }

    /// Decodes a voucher's key and IV text by the length rule: a key of
    /// exactly 32 characters is hexadecimal, anything else Base64.
    pub fn from_voucher_fields(key: &str, iv: Option<&str>) -> (r: Result<Self, CoreError>)
        ensures
            r is Ok <==> decoded_key_material(key@, view_opt_str(iv)) is Some,
            r matches Ok(kd) ==> Some(kd.model()) == decoded_key_material(key@, view_opt_str(iv)),
            r matches Err(e) ==> e is InvalidInput,
    {
        if key.unicode_len() == 32 {
            Self::from_hex(key, iv)
        } else {
            Self::from_base64(key, iv)
        }
    }

    /// Opens an opaque encrypted license blob: decodes it from Base64,
    /// derives the cipher parameters from the four identifiers, decrypts,
    /// drops trailing NUL bytes, parses the revealed JSON voucher and
    /// decodes its key material.
    pub fn from_license_response(
        license_response_b64: &str,
        device_type: &str,
        device_serial: &str,
        account_id: &str,
        asin: &str,
    ) -> (r: Result<Self, CoreError>)
        ensures
            r is Ok <==> derived_key_material(
                license_response_b64@,
                device_type@,
                device_serial@,
                account_id@,
                asin@,
            ) is Some,
            r matches Ok(kd) ==> Some(kd.model()) == derived_key_material(
                license_response_b64@,
                device_type@,
                device_serial@,
                account_id@,
                asin@,
            ),
            r matches Err(e) ==> e is InvalidInput,
    {
        let ciphertext = match base64_decode(license_response_b64) {
            Some(b) => b,
            None => {
                return Err(CoreError::InvalidInput("invalid base64 license response".to_owned()));
            },
        };
        if ciphertext.len() % 16 != 0 {
            return Err(CoreError::InvalidInput("license response is not whole cipher blocks".to_owned()));
        }
        let context = KeyDerivationContext {
            device_type: device_type.to_owned(),
            device_serial: device_serial.to_owned(),
            account_id: account_id.to_owned(),
            content_id: asin.to_owned(),
        };
        let (key, iv) = context.derive_key_iv();
        let mut plaintext = match aes128_cbc_decrypt(
            key.as_slice(),
            iv.as_slice(),
            ciphertext.as_slice(),
        ) {
            Some(p) => p,
            None => {
                return Err(CoreError::InvalidInput("failed to decrypt license response".to_owned()));
            },
        };
        crate::crypto::strip_trailing_zeros(&mut plaintext);
        let json_text = match utf8_to_string(plaintext) {
            Some(s) => s,
            None => {
                return Err(CoreError::InvalidInput("decrypted license is not valid UTF-8".to_owned()));
            },
        };
        let (voucher_key, voucher_iv) = match parse_voucher_json(json_text.as_str()) {
            Some(kv) => kv,
            None => {
                return Err(CoreError::InvalidInput("failed to parse decrypted voucher JSON".to_owned()));
            },
        };
        let iv_ref = match &voucher_iv {
            Some(s) => Some(s.as_str()),
            None => None,
        };
        Self::from_voucher_fields(voucher_key.as_str(), iv_ref)
    }

    /// Classifies the file type this key shape implies under a DRM scheme.
    pub fn file_type(&self, drm_type: DrmType) -> (r: FileType)
        ensures
            r == spec_file_type(self.key_part_1@, self.model().1, drm_type),
    {
        match drm_type {
            DrmType::Widevine => FileType::Dash,
            DrmType::Adrm => {
                if self.key_part_1.len() == 4 && self.key_part_2.is_none() {
                    FileType::Aax
                } else {
                    let iv_is_16 = match &self.key_part_2 {
                        Some(iv) => iv.len() == 16,
                        None => false,
                    };
                    if self.key_part_1.len() == 16 && iv_is_16 {
                        FileType::Aaxc
                    } else {
                        FileType::Unknown
                    }
                }
            },
            DrmType::Unencrypted => FileType::Mp3,
        }
    }
}

/// The decision core of the API client: everything about a license that is
/// not the network round trip itself. The transport layer fetches the raw
/// record and hands it in; identity is attached where opaque blobs must be
/// opened.
pub struct AudibleClient {
    /// Identity the client acts under, where one is registered.
    pub identity: Option<Identity>,
}

/// The file type a whole download license classifies to: the first key's
/// shape decides where keys are present, the DRM scheme alone otherwise.
pub open spec fn spec_determine_file_type(license: &DownloadLicense) -> FileType {
    match license.decryption_keys {
        Option::Some(keys) => if keys.len() > 0 {
            spec_file_type(keys[0].key_part_1@, keys[0].model().1, license.drm_type)
        } else {
            spec_fallback_file_type(license.drm_type)
        },
        Option::None => spec_fallback_file_type(license.drm_type),
    }
}

/// The file type assumed where a license carries no keys.
pub open spec fn spec_fallback_file_type(drm: DrmType) -> FileType {
    match drm {
        DrmType::Widevine => FileType::Dash,
        DrmType::Unencrypted => FileType::Mp3,
        DrmType::Adrm => FileType::Unknown,
    }
}

/// The output container chosen for a license: unencrypted content is MP3;
/// encrypted content converts to MP3 on request unless it is AC-4 spatial
/// audio, and stays M4B otherwise.
pub open spec fn spec_output_format(license: &DownloadLicense, convert_to_mp3: bool) -> OutputFormat {
    if !(license.drm_type is Adrm || license.drm_type is Widevine) {
        OutputFormat::Mp3
    } else if convert_to_mp3 && (match license.content_metadata.content_reference {
        Option::Some(cr) => !(cr.codec is Ac4),
        Option::None => true,
    }) {
        OutputFormat::Mp3
    } else {
        OutputFormat::M4b
    }
}

impl AudibleClient {
    /// A client acting under the given identity, or under none.
    pub fn new(identity: Option<Identity>) -> (r: Self)
        ensures
            r.identity == identity,
    {
        AudibleClient { identity }
    }

    /// Builds the license request for one acquisition: offline download at
    /// the given quality, chapter tree, no spatial audio, plain AAC, and an
    /// explicit DRM preference selected by `prefer_widevine`.
    pub fn build_license_request(quality: DownloadQuality, prefer_widevine: bool) -> (r:
        LicenseRequest)
        ensures
            r.quality == quality,
            r.consumption_type == ConsumptionType::Download,
            r.drm_type == Some(
                if prefer_widevine {
                    DrmType::Widevine
                } else {
                    DrmType::Adrm
                },
            ),
            r.chapter_titles_type == Some(ChapterTitlesType::Tree),
            r.request_spatial == Some(false),
            r.aac_codec == Some(Codec::AacLc),
            r.spatial_codec == Some(Codec::Ec3),
            r.has_explicit_drm(),
    {
        LicenseRequest {
            quality,
            consumption_type: ConsumptionType::Download,
            drm_type: Some(
                if prefer_widevine {
                    DrmType::Widevine
                } else {
                    DrmType::Adrm
                },
            ),
            chapter_titles_type: Some(ChapterTitlesType::Tree),
            request_spatial: Some(false),
            aac_codec: Some(Codec::AacLc),
            spatial_codec: Some(Codec::Ec3),
        }
    }

    /// Turns a granted license record into a ready download license:
    /// extracts the offline URL, then derives the key set from whichever
    /// decryption material the record carries. A record with neither
    /// voucher nor blob is complete only outside provider DRM; under it,
    /// that absence is a protocol error.
    pub fn assemble_download_license(&self, asin: &str, license: ContentLicense) -> (r: Result<
        DownloadLicense,
        CoreError,
    >)
        ensures
            license.content_metadata.content_url.offline_url is None ==> (r matches Err(e)
                && e is MissingOfflineUrl),
            r matches Ok(dl) ==> {
                &&& license.content_metadata.content_url.offline_url matches Some(u)
                    && dl.download_url@ == u@
                &&& dl.drm_type == license.drm_type
                &&& dl.content_metadata == license.content_metadata
            },
            license.content_metadata.content_url.offline_url is Some ==> match license.voucher {
                Option::Some(v) => {
                    &&& r is Ok <==> decoded_key_material(
                        v.key@,
                        spec_voucher_iv_view(&v),
                    ) is Some
                    &&& r matches Ok(dl) ==> dl.decryption_keys matches Some(ks) && ks.len() == 1
                        && Some(ks[0].model()) == decoded_key_material(
                        v.key@,
                        spec_voucher_iv_view(&v),
                    )
                    &&& r matches Err(e) ==> e is InvalidInput
                },
                Option::None => match license.license_response {
                    Option::Some(blob) => match self.identity {
                        Option::Some(id) => {
                            &&& r is Ok <==> derived_key_material(
                                blob@,
                                id.device_type@,
                                id.device_serial_number@,
                                id.amazon_account_id@,
                                asin@,
                            ) is Some
                            &&& r matches Ok(dl) ==> dl.decryption_keys matches Some(ks)
                                && ks.len() == 1 && Some(ks[0].model()) == derived_key_material(
                                blob@,
                                id.device_type@,
                                id.device_serial_number@,
                                id.amazon_account_id@,
                                asin@,
                            )
                            &&& r matches Err(e) ==> e is InvalidInput
                        },
                        Option::None => r matches Err(e) && e is InvalidState,
                    },
                    Option::None => if license.drm_type is Adrm {
                        r matches Err(e) && e is MissingDecryptionMaterial
                    } else {
                        r matches Ok(dl) && dl.decryption_keys is None
                    },
                },
            },
    {
        let download_url = match license.content_metadata.content_url.offline_url.clone() {
            Some(u) => u,
            None => {
                return Err(CoreError::MissingOfflineUrl);
            },
        };
        let decryption_keys = if let Some(voucher) = &license.voucher {
            let iv_ref = match &voucher.iv {
                Some(s) => Some(s.as_str()),
                None => None,
            };
            let key_data = match KeyData::from_voucher_fields(voucher.key.as_str(), iv_ref) {
                Ok(kd) => kd,
                Err(e) => {
                    return Err(e);
                },
            };
            Some(vec![key_data])
        } else if let Some(license_response) = &license.license_response {
            let identity = match &self.identity {
                Some(id) => id,
                None => {
                    return Err(
                        CoreError::InvalidState(
                            "no identity attached; cannot decrypt the license response".to_owned(),
                        ),
                    );
                },
            };
            let key_data = match KeyData::from_license_response(
                license_response.as_str(),
                identity.device_type.as_str(),
                identity.device_serial_number.as_str(),
                identity.amazon_account_id.as_str(),
                asin,
            ) {
                Ok(kd) => kd,
                Err(e) => {
                    return Err(e);
                },
            };
            Some(vec![key_data])
        } else if license.drm_type == DrmType::Adrm {
            return Err(CoreError::MissingDecryptionMaterial);
        } else {
            None
        };
        Ok(
            DownloadLicense {
                drm_type: license.drm_type,
                content_metadata: license.content_metadata,
                decryption_keys,
                download_url,
            },
        )
    }

    /// Classifies a download license's file type from its keys and DRM
    /// scheme.
    pub fn determine_file_type(license: &DownloadLicense) -> (r: FileType)
        ensures
            r == spec_determine_file_type(license),
    {
        if let Some(keys) = &license.decryption_keys {
            if keys.len() > 0 {
                let first = &keys[0];
                return first.file_type(license.drm_type);
            }
        }
        match license.drm_type {
            DrmType::Widevine => FileType::Dash,
            DrmType::Unencrypted => FileType::Mp3,
            DrmType::Adrm => FileType::Unknown,
        }
    }

    /// Chooses the output container for a download license.
    pub fn determine_output_format(license: &DownloadLicense, convert_to_mp3: bool) -> (r:
        OutputFormat)
        ensures
            r == spec_output_format(license, convert_to_mp3),
    {
        if !license.drm_type.is_encrypted() {
            return OutputFormat::Mp3;
        }
        if convert_to_mp3 {
            let codec_allows = match &license.content_metadata.content_reference {
                Some(cr) => !(cr.codec == Codec::Ac4),
                None => true,
            };
            if codec_allows {
                return OutputFormat::Mp3;
            }
        }
        OutputFormat::M4b
    }
}

/// Derives the key set a license record carries, given the derivation
/// context for its content: a structured voucher decodes by the length
/// rule; an opaque blob is opened with the context's derived cipher
/// parameters; a record with neither is complete only outside provider
/// DRM, and under it that absence is a protocol error. Pure: same record
/// and context, same outcome.
pub fn derive_keys(license: &ContentLicense, context: &KeyDerivationContext) -> (r: Result<
    Option<KeyData>,
    CoreError,
>)
    ensures
        match license.voucher {
            Option::Some(v) => {
                &&& r is Ok <==> decoded_key_material(v.key@, spec_voucher_iv_view(&v)) is Some
                &&& r matches Ok(k) ==> k matches Some(kd) && Some(kd.model())
                    == decoded_key_material(v.key@, spec_voucher_iv_view(&v))
                &&& r matches Err(e) ==> e is InvalidInput
            },
            Option::None => match license.license_response {
                Option::Some(blob) => {
                    &&& r is Ok <==> derived_key_material(
                        blob@,
                        context.device_type@,
                        context.device_serial@,
                        context.account_id@,
                        context.content_id@,
                    ) is Some
                    &&& r matches Ok(k) ==> k matches Some(kd) && Some(kd.model())
                        == derived_key_material(
                        blob@,
                        context.device_type@,
                        context.device_serial@,
                        context.account_id@,
                        context.content_id@,
                    )
                    &&& r matches Err(e) ==> e is InvalidInput
                },
                Option::None => if license.drm_type is Adrm {
                    r matches Err(e) && e is MissingDecryptionMaterial
                } else {
                    r matches Ok(k) && k is None
                },
            },
        },
{
    if let Some(voucher) = &license.voucher {
        let iv_ref = match &voucher.iv {
            Some(s) => Some(s.as_str()),
            None => None,
        };
        match KeyData::from_voucher_fields(voucher.key.as_str(), iv_ref) {
            Ok(kd) => Ok(Some(kd)),
            Err(e) => Err(e),
        }
    } else if let Some(license_response) = &license.license_response {
        match KeyData::from_license_response(
            license_response.as_str(),
            context.device_type.as_str(),
            context.device_serial.as_str(),
            context.account_id.as_str(),
            context.content_id.as_str(),
        ) {
            Ok(kd) => Ok(Some(kd)),
            Err(e) => Err(e),
        }
    } else if license.drm_type == DrmType::Adrm {
        Err(CoreError::MissingDecryptionMaterial)
    } else {
        Ok(None)
    }
}

/// View of a voucher's optional IV text.
pub open spec fn spec_voucher_iv_view(v: &Voucher) -> Option<Seq<char>> {
    match v.iv {
        Option::Some(s) => Some(s@),
        Option::None => None,
    }
}

/// Classification is total over key shapes: under provider DRM a 4-byte key
/// with no IV is the legacy single-key format, a 16-byte key with a 16-byte
/// IV is the paired-key format, and every other shape is unrecognized.
pub proof fn lemma_classification(key1: Seq<u8>, key2: Option<Seq<u8>>)
    ensures
        key1.len() == 4 && key2 is None ==> spec_file_type(key1, key2, DrmType::Adrm)
            == FileType::Aax,
        key1.len() == 16 && (key2 matches Some(iv) && iv.len() == 16) ==> spec_file_type(
            key1,
            key2,
            DrmType::Adrm,
        ) == FileType::Aaxc,
        !(key1.len() == 4 && key2 is None) && !(key1.len() == 16 && (key2 matches Some(iv)
            && iv.len() == 16)) ==> spec_file_type(key1, key2, DrmType::Adrm)
            == FileType::Unknown,
{
}

} // verus!
