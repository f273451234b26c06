//! Customer information shape.

use librisync::customer::CustomerInformation;

#[test]
fn test_customer_information_starts_empty() {
    let info = CustomerInformation::empty();
    assert!(info.name.is_none());
    assert!(info.given_name.is_none());
    assert!(info.email.is_none());
}

#[test]
fn test_customer_information_carries_fields() {
    let info = CustomerInformation {
        name: Some("Example Listener".to_string()),
        given_name: Some("Example".to_string()),
        email: None,
    };
    assert_eq!(info.name.as_deref(), Some("Example Listener"));
    assert_eq!(info.given_name.as_deref(), Some("Example"));
    assert!(info.email.is_none());
}
