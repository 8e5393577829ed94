use farms::key::{IdempotencyKey, KeyError, MAX_KEY_LEN};
use uuid::Uuid;

#[test]
fn empty_string_is_rejected() {
    let key = "".to_string();
    assert!(IdempotencyKey::try_from(key).is_err());
}

#[test]
fn too_long_string_is_rejected() {
    let key = "a".repeat(81).to_string();
    assert!(IdempotencyKey::try_from(key).is_err());
}

#[test]
fn whitespace_string_is_rejected() {
    let key = "\t ".to_string();
    assert!(IdempotencyKey::try_from(key).is_err());
}

#[test]
fn valid_key_is_accepted() {
    let key = Uuid::new_v4().to_string();
    assert!(IdempotencyKey::try_from(key).is_ok());
}

#[test]
fn valid_key_with_prefix_is_accepted() {
    let key = format!("{}:{}", "idem", Uuid::new_v4().to_string());
    assert!(IdempotencyKey::try_from(key).is_ok());
}

#[test]
fn valid_key_with_prefix_and_user_id_is_accepted() {
    let key = format!(
        "{}:{}:{}",
        "idem",
        Uuid::new_v4().to_string(),
        Uuid::new_v4().to_string()
    );
    assert!(IdempotencyKey::try_from(key).is_ok());
}

#[test]
fn key_length_boundary_is_exact() {
    assert_eq!(MAX_KEY_LEN, 80);
    let longest = "a".repeat(79);
    assert_eq!(IdempotencyKey::parse(&longest).unwrap().as_str(), longest);
    assert_eq!(IdempotencyKey::parse(&"a".repeat(80)).unwrap_err(), KeyError::TooLong(80));
}

#[test]
fn key_is_trimmed_and_keeps_case() {
    let key = IdempotencyKey::parse("  AbC-123\n").unwrap();
    assert_eq!(key.as_str(), "AbC-123");
    assert_eq!(key.into_string(), "AbC-123".to_string());
}

#[test]
fn key_length_is_measured_after_trimming_and_in_bytes() {
    let padded = format!("   {}   ", "a".repeat(79));
    assert!(IdempotencyKey::parse(&padded).is_ok());
    // 40 two-byte characters are 80 bytes.
    assert_eq!(IdempotencyKey::parse(&"é".repeat(40)).unwrap_err(), KeyError::TooLong(80));
    assert!(IdempotencyKey::parse(&"é".repeat(39)).is_ok());
}

#[test]
fn blank_keys_give_the_empty_error() {
    assert_eq!(IdempotencyKey::parse("").unwrap_err(), KeyError::Empty);
    assert_eq!(IdempotencyKey::parse(" \t\r\n\u{3000}").unwrap_err(), KeyError::Empty);
}
