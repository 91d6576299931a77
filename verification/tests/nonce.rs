use grid_daemon::nonce::{create_nonce, format_nonce};

#[test]
fn nonce_is_seconds_then_nanoseconds() {
    assert_eq!(format_nonce(0, 0), "00");
    assert_eq!(format_nonce(0, 42), "042");
    assert_eq!(format_nonce(7, 5), "75");
    assert_eq!(format_nonce(12, 345_678_901), "12345678901");
    assert_eq!(format_nonce(100, 10), "10010");
}

#[test]
fn nonce_of_largest_values() {
    assert_eq!(format_nonce(u64::MAX, 999_999_999), "18446744073709551615999999999");
    assert_eq!(format_nonce(u64::MAX, u32::MAX), "184467440737095516154294967295");
}

#[test]
fn created_nonce_is_decimal() {
    let nonce = create_nonce();
    assert!(nonce.len() >= 2);
    assert!(nonce.chars().all(|c| c.is_ascii_digit()));
}
