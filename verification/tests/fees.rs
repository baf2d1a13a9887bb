use remiteasy::errors::RemitEasyError;
use remiteasy::utils::{calculate_fee, validate_amount, validate_fee_rate, validate_memo};

#[test]
fn test_calculate_fee() {
    // Test 1% fee (100 basis points)
    assert_eq!(calculate_fee(1_000_000, 100), 10_000);

    // Test 0.5% fee (50 basis points)
    assert_eq!(calculate_fee(1_000_000, 50), 5_000);

    // Test 0% fee
    assert_eq!(calculate_fee(1_000_000, 0), 0);
}

#[test]
fn fee_at_full_rate_is_whole_amount() {
    assert_eq!(calculate_fee(1_000_000, 10_000), 1_000_000);
    assert_eq!(calculate_fee(u64::MAX, 10_000), u64::MAX);
}

#[test]
fn fee_truncates_toward_zero() {
    // 9999 * 1 / 10000 = 0 remainder 9999
    assert_eq!(calculate_fee(9_999, 1), 0);
    // 15_000 * 3 / 10000 = 4 remainder 5000
    assert_eq!(calculate_fee(15_000, 3), 4);
}

#[test]
fn fee_plus_net_equals_amount() {
    for &(amount, rate) in
        &[(1_000_000u64, 100u16), (999_999, 137), (1, 10_000), (u64::MAX, 9_999), (12_345, 0)]
    {
        let fee = calculate_fee(amount, rate);
        assert!(fee <= amount);
        let net = amount - fee;
        assert_eq!(fee + net, amount);
    }
}

#[test]
fn validate_amount_rejects_zero() {
    assert_eq!(validate_amount(0), Err(RemitEasyError::InvalidAmount));
    assert_eq!(validate_amount(1), Ok(()));
    assert_eq!(validate_amount(u64::MAX), Ok(()));
}

#[test]
fn validate_memo_rejects_over_200_chars() {
    assert_eq!(validate_memo(""), Ok(()));
    assert_eq!(validate_memo(&"a".repeat(200)), Ok(()));
    assert_eq!(validate_memo(&"a".repeat(201)), Err(RemitEasyError::MemoTooLong));
}

#[test]
fn validate_fee_rate_rejects_over_10000_bps() {
    assert_eq!(validate_fee_rate(0), Ok(()));
    assert_eq!(validate_fee_rate(10_000), Ok(()));
    assert_eq!(validate_fee_rate(10_001), Err(RemitEasyError::InvalidFeePercentage));
    assert_eq!(validate_fee_rate(u16::MAX), Err(RemitEasyError::InvalidFeePercentage));
}
