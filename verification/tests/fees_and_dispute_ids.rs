use trust_pay::dispute_id::generate_dispute_id;
use trust_pay::error::TrustPayError;
use trust_pay::fees::calculate_fee;

#[test]
fn fee_is_five_basis_points_rounded_down() {
    assert_eq!(calculate_fee(1_000_000), Ok(500));
    assert_eq!(calculate_fee(600_000), Ok(300));
    assert_eq!(calculate_fee(400_000), Ok(200));
    assert_eq!(calculate_fee(10_000), Ok(5));
    assert_eq!(calculate_fee(0), Ok(0));
}

#[test]
fn fee_rounds_down_to_zero_on_small_amounts() {
    // 1999 * 5 / 10000 = 0.9995, floored away entirely.
    assert_eq!(calculate_fee(1_999), Ok(0));
    assert_eq!(calculate_fee(2_000), Ok(1));
    assert_eq!(calculate_fee(1), Ok(0));
}

#[test]
fn fee_overflow_is_rejected() {
    assert_eq!(calculate_fee(u64::MAX), Err(TrustPayError::CalculationError));
    // The largest amount whose product with the rate still fits.
    let threshold = u64::MAX / 5;
    assert!(calculate_fee(threshold).is_ok());
    assert_eq!(calculate_fee(threshold + 1), Err(TrustPayError::CalculationError));
}

#[test]
fn dispute_id_known_value() {
    // SHA-256 of the little-endian seed bytes for (42, 1, 1700000000),
    // mapped byte by byte to two letters and four digits.
    assert_eq!(generate_dispute_id(42, 1, 1_700_000_000), "FR2446");
}

#[test]
fn dispute_id_is_deterministic() {
    let a = generate_dispute_id(42, 1, 1_700_000_000);
    let b = generate_dispute_id(42, 1, 1_700_000_000);
    assert_eq!(a, b);
    let c = generate_dispute_id(7, 0, 1_000);
    let d = generate_dispute_id(7, 0, 1_000);
    assert_eq!(c, d);
    assert_eq!(c, "JA6976");
}

#[test]
fn dispute_id_varies_with_timestamp() {
    let a = generate_dispute_id(42, 1, 1_700_000_000);
    let b = generate_dispute_id(42, 1, 1_700_000_001);
    assert_ne!(a, b);
    assert_eq!(b, "EN4656");
}

#[test]
fn dispute_id_matches_pattern() {
    let samples = [
        generate_dispute_id(0, 0, 0),
        generate_dispute_id(42, 1, 1_700_000_000),
        generate_dispute_id(u64::MAX, 9, i64::MAX),
        generate_dispute_id(123_456_789, 3, 987_654_321),
    ];
    for id in samples.iter() {
        let chars: Vec<char> = id.chars().collect();
        assert_eq!(chars.len(), 6);
        assert!(chars[0].is_ascii_uppercase());
        assert!(chars[1].is_ascii_uppercase());
        for c in &chars[2..6] {
            assert!(c.is_ascii_digit());
        }
    }
}
