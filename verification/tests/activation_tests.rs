//! Activation bytes: endpoint construction, blob format, hex rendering and
//! account storage.

use librisync::activation::{
    extract_activation_bytes, format_activation_bytes, parse_activation_bytes,
    validate_activation_bytes,
};
use librisync::identity::{AccessToken, Account, Identity, Locale};

fn example_identity(locale: Locale) -> Identity {
    Identity {
        access_token: AccessToken {
            token: "Atna|EXAMPLE_ACCESS_TOKEN_FOR_TESTS_ONLY_0123456789".to_string(),
            expires_at_ms: 4_000_000_000_000,
        },
        device_type: "A10KISP2GWF0E4".to_string(),
        device_serial_number: "B45EF975C33A7B7E8DAF4D96E39B8040".to_string(),
        amazon_account_id: "amzn1.account.AGMGLSGIFYVALF2MEO4F3JJQRLSA".to_string(),
        locale,
    }
}

#[test]
fn test_activation_bytes_endpoint_url() {
    let locale = Locale::us();

    let expected_url = format!(
        "https://www.{}/license/token?action=register&player_manuf=Audible,iPhone&player_model=iPhone",
        locale.domain
    );

    assert_eq!(
        expected_url,
        "https://www.audible.com/license/token?action=register&player_manuf=Audible,iPhone&player_model=iPhone"
    );
}

#[test]
fn test_activation_bytes_for_different_locales() {
    let locales = vec![
        (Locale::us(), "audible.com"),
        (Locale::uk(), "audible.co.uk"),
        (Locale::de(), "audible.de"),
        (Locale::fr(), "audible.fr"),
    ];

    for (locale, expected_domain) in locales {
        let url = format!(
            "https://www.{}/license/token?action=register&player_manuf=Audible,iPhone&player_model=iPhone",
            locale.domain
        );
        assert!(url.contains(expected_domain));
    }
}

#[test]
fn test_account_ready_for_activation_bytes() {
    let locale = Locale::us();
    let identity = example_identity(locale);

    let mut account = Account::new(identity.amazon_account_id.clone());
    account.set_identity(identity);

    assert!(account.identity.is_some());

    let identity = account.identity.as_ref().unwrap();
    assert!(!identity.access_token.token.is_empty());
    assert_eq!(identity.locale.country_code, "us");

    let now_ms: u64 = 1_700_000_000_000;
    assert!(!account.needs_token_refresh(now_ms));
}

#[test]
fn test_activation_bytes_binary_format() {
    let activation_blob_sz: usize = 0x238;

    let mut blob = vec![0u8; activation_blob_sz + 10];

    let offset = blob.len() - activation_blob_sz;
    blob[offset] = 0x1a;
    blob[offset + 1] = 0x2b;
    blob[offset + 2] = 0x3c;
    blob[offset + 3] = 0x4d;

    let act_bytes = extract_activation_bytes(&blob).unwrap();

    let hex_string = format_activation_bytes(act_bytes);

    assert_eq!(hex_string, "4d3c2b1a"); // Little-endian!
    assert_eq!(hex_string.len(), 8);
}

#[test]
fn test_activation_bytes_error_cases() {
    let activation_blob_sz: usize = 0x238;

    let small_blob = vec![0u8; activation_blob_sz - 1];
    assert!(small_blob.len() < activation_blob_sz);
    assert!(extract_activation_bytes(&small_blob).is_none());

    let valid_blob = vec![0u8; activation_blob_sz];
    assert!(valid_blob.len() >= activation_blob_sz);
    assert!(extract_activation_bytes(&valid_blob).is_some());

    let large_blob = vec![0u8; activation_blob_sz + 1000];
    assert!(large_blob.len() >= activation_blob_sz);
    assert!(extract_activation_bytes(&large_blob).is_some());
}

#[test]
fn test_activation_bytes_flow_preparation() {
    let locale = Locale::us();
    let identity = example_identity(locale);

    let mut account = Account::new(identity.amazon_account_id.clone());
    account.set_account_name("Example Listener".to_string());
    account.set_identity(identity.clone());

    let endpoint_url = format!(
        "https://www.{}/license/token?action=register&player_manuf=Audible,iPhone&player_model=iPhone",
        identity.locale.domain
    );
    assert!(endpoint_url.starts_with("https://www.audible.com/"));
    assert_eq!(identity.locale.api_url(), "https://api.audible.com");

    assert!(!identity.access_token.token.is_empty());
    assert_eq!(identity.locale.domain, "audible.com");
}

#[test]
fn test_activation_bytes_hex_format() {
    let test_cases = vec![
        (0x00000000u32, "00000000"),
        (0xFFFFFFFFu32, "ffffffff"),
        (0x1A2B3C4Du32, "1a2b3c4d"),
        (0xDEADBEEFu32, "deadbeef"),
    ];

    for (input, expected) in test_cases {
        let hex = format_activation_bytes(input);
        assert_eq!(hex, expected);
        assert_eq!(hex.len(), 8);
        assert_eq!(parse_activation_bytes(&hex), Some(input));
        assert!(validate_activation_bytes(&hex));
    }
}

#[test]
fn test_decrypt_key_storage() {
    let mut account = Account::new("test@example.com".to_string());

    // Initially empty
    assert!(account.decrypt_key.is_empty());

    // Set activation bytes
    let activation_bytes = "1a2b3c4d";
    account.set_decrypt_key(activation_bytes.to_string());

    assert_eq!(account.decrypt_key, activation_bytes);
}

#[test]
fn test_activation_bytes_endianness() {
    // Test data: 0x1A 0x2B 0x3C 0x4D
    let bytes = [0x1A, 0x2B, 0x3C, 0x4D];

    // Little-endian (as the blob stores it)
    let le = u32::from_le_bytes(bytes);
    let le_hex = format_activation_bytes(le);
    assert_eq!(le_hex, "4d3c2b1a");

    // Big-endian (for comparison)
    let be = u32::from_be_bytes(bytes);
    let be_hex = format_activation_bytes(be);
    assert_eq!(be_hex, "1a2b3c4d");
}

#[test]
fn test_complete_activation_bytes_workflow() {
    let locale = Locale::us();
    let identity = example_identity(locale);

    let mut account = Account::new(identity.amazon_account_id.clone());
    account.set_account_name("Example Listener".to_string());
    account.set_identity(identity.clone());

    assert!(account.identity.is_some());
    let now_ms: u64 = 1_700_000_000_000;
    assert!(!account.needs_token_refresh(now_ms));

    let endpoint = format!(
        "https://www.{}/license/token?action=register&player_manuf=Audible,iPhone&player_model=iPhone",
        identity.locale.domain
    );
    assert!(endpoint.contains("audible.com"));

    // A blob as the service would answer, with the code at its offset.
    let mut blob = vec![0u8; 0x238];
    blob[0] = 0x1a;
    blob[1] = 0x2b;
    blob[2] = 0x3c;
    blob[3] = 0x4d;
    let code = extract_activation_bytes(&blob).unwrap();
    let simulated_activation_bytes = format_activation_bytes(code);
    assert_eq!(simulated_activation_bytes, "4d3c2b1a");

    account.set_decrypt_key(simulated_activation_bytes.clone());

    assert_eq!(account.decrypt_key, simulated_activation_bytes);
    assert!(!account.decrypt_key.is_empty());
}
