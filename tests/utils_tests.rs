use webull_core::utils::{
    base64_decode, base64_encode, generate_req_id, get_account_type, get_region_code,
    hash_password, new_idempotency_key, parse_interval, timestamp_to_string, validate_email,
};
use webull_core::error::WebullError;

#[test]
fn test_password_hashing() {
    let password = "testpassword123";
    let hashed = hash_password(password);

    assert!(!hashed.is_empty());
    assert_eq!(hashed.len(), 32);

    let hashed2 = hash_password(password);
    assert_eq!(hashed, hashed2);
}

#[test]
fn test_hash_password() {
    let password = "test123";
    let hashed = hash_password(password);
    assert!(!hashed.is_empty());
    assert_eq!(hashed.len(), 32);
}

#[test]
fn hash_password_salts_before_hashing() {
    // MD5 of "wl_app-a&b@!423^" followed by "test123"; the unsalted digest differs.
    let hashed = hash_password("test123");
    assert_ne!(hashed, "cc03e747a6afbbcbf8be7668acfebee5");
    assert!(hashed.chars().all(|c| c.is_ascii_hexdigit() && !c.is_ascii_uppercase()));
    assert_ne!(hash_password("test123"), hash_password("test124"));
}

#[test]
fn test_account_type_detection() {
    assert_eq!(get_account_type("test@example.com").unwrap(), 2);
    assert_eq!(get_account_type("user.name+tag@example.co.uk").unwrap(), 2);

    assert_eq!(get_account_type("+1-2345678901").unwrap(), 1);
    assert_eq!(get_account_type("+86-13812345678").unwrap(), 1);

    assert_eq!(get_account_type("username").unwrap(), 2);
}

#[test]
fn test_get_account_type() {
    assert_eq!(get_account_type("test@example.com").unwrap(), 2);
    assert_eq!(get_account_type("+1234567890").unwrap(), 1);
}

#[test]
fn account_type_rejects_malformed_email() {
    assert!(matches!(get_account_type("bad@"), Err(WebullError::InvalidParameter(_))));
    assert!(matches!(get_account_type("a@@b.com"), Err(WebullError::InvalidParameter(_))));
    assert_eq!(get_account_type("").unwrap(), 2);
}

#[test]
fn test_email_validation() {
    assert!(validate_email("test@example.com"));
    assert!(validate_email("user.name@domain.co.uk"));
    assert!(validate_email("test+tag@subdomain.example.org"));

    assert!(!validate_email("invalid"));
    assert!(!validate_email("@example.com"));
    assert!(!validate_email("test@"));
    assert!(!validate_email("test@.com"));
    assert!(!validate_email("test@domain"));
}

#[test]
fn test_validate_email() {
    assert!(validate_email("test@example.com"));
    assert!(validate_email("user.name@domain.co.uk"));
    assert!(!validate_email("invalid"));
    assert!(!validate_email("@example.com"));
    assert!(!validate_email("test@"));
}

#[test]
fn email_edge_cases() {
    assert!(!validate_email(""));
    assert!(!validate_email("a@b..com"));
    assert!(!validate_email("a@b.com."));
    assert!(!validate_email("a@b@c.com"));
    assert!(validate_email("a@b.c"));
}

#[test]
fn test_interval_parsing() {
    assert!(parse_interval("1m").is_ok());
    assert!(parse_interval("5m").is_ok());
    assert!(parse_interval("1h").is_ok());
    assert!(parse_interval("1d").is_ok());
    assert!(parse_interval("d1").is_ok());

    assert!(parse_interval("invalid").is_err());
    assert!(parse_interval("10s").is_err());
    assert!(parse_interval("2y").is_err());
}

#[test]
fn test_parse_interval() {
    assert!(parse_interval("1m").is_ok());
    assert!(parse_interval("1d").is_ok());
    assert!(parse_interval("invalid").is_err());
}

#[test]
fn parse_interval_returns_the_interval_and_names_a_bad_one() {
    assert_eq!(parse_interval("mo1").unwrap(), "mo1");
    assert_eq!(parse_interval("1M").unwrap(), "1M");
    match parse_interval("1y") {
        Err(WebullError::InvalidParameter(m)) => assert_eq!(m, "Invalid interval: 1y"),
        other => panic!("unexpected: {:?}", other),
    }
}

#[test]
fn test_region_code_mapping() {
    assert_eq!(get_region_code(Some("US")), 6);
    assert_eq!(get_region_code(Some("us")), 6);
    assert_eq!(get_region_code(Some("CN")), 1);
    assert_eq!(get_region_code(Some("cn")), 1);
    assert_eq!(get_region_code(Some("HK")), 2);
    assert_eq!(get_region_code(Some("hk")), 2);
    assert_eq!(get_region_code(None), 6);
    assert_eq!(get_region_code(Some("unknown")), 6);
}

#[test]
fn test_request_id_generation() {
    let id1 = generate_req_id();
    let id2 = generate_req_id();

    assert_eq!(id1.len(), 32);
    assert_eq!(id2.len(), 32);
    assert_ne!(id1, id2);
}

#[test]
fn request_id_has_no_hyphens_and_key_has_four() {
    assert!(!generate_req_id().contains('-'));
    let key = new_idempotency_key();
    assert_eq!(key.len(), 36);
    assert_eq!(key.matches('-').count(), 4);
}

#[test]
fn test_base64_encoding_decoding() {
    let original = b"Hello, Webull!";
    let encoded = base64_encode(original);
    let decoded = base64_decode(&encoded).unwrap();

    assert_eq!(decoded, original);
}

#[test]
fn base64_known_values() {
    assert_eq!(base64_encode(b"Man"), "TWFu");
    assert_eq!(base64_encode(b""), "");
    assert_eq!(base64_decode("TWE=").unwrap(), b"Ma".to_vec());
    assert!(matches!(base64_decode("***"), Err(WebullError::SerializationError(_))));
}

#[test]
fn test_timestamp_conversion() {
    let timestamp = 1609459200000i64;
    let formatted = timestamp_to_string(timestamp);

    assert!(formatted.contains("2021-01-01"));
    assert!(formatted.contains("00:00:00"));
}

#[test]
fn timestamp_exact_text_and_truncation() {
    assert_eq!(timestamp_to_string(1609459200999), "2021-01-01 00:00:00");
    assert_eq!(timestamp_to_string(0), "1970-01-01 00:00:00");
    assert_eq!(timestamp_to_string(-1500), "1969-12-31 23:59:59");
    assert_eq!(timestamp_to_string(i64::MAX), "1970-01-01 00:00:00");
}
