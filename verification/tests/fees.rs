use oxmart_payment::error::ErrorCode;
use oxmart_payment::fees::{compute_fees, share_of, FeeBreakdown};

#[test]
fn fee_example_single_payment() {
    let f = compute_fees(1_000_000, 250, 500).unwrap();
    assert_eq!(
        f,
        FeeBreakdown { platform_fee: 25_000, commission: 50_000, net_amount: 975_000 }
    );
}

#[test]
fn fee_example_batch() {
    let f = compute_fees(3_000_000, 100, 0).unwrap();
    assert_eq!(f.platform_fee, 30_000);
    assert_eq!(f.net_amount, 2_970_000);
    assert_eq!(f.commission, 0);
}

#[test]
fn share_rounds_down() {
    assert_eq!(share_of(9_999, 1), Some(0));
    assert_eq!(share_of(10_000, 1), Some(1));
    assert_eq!(share_of(19_999, 1), Some(1));
    assert_eq!(share_of(1, 10_000), Some(1));
}

#[test]
fn share_of_largest_amount_is_computed_wide() {
    assert_eq!(share_of(u64::MAX, 10_000), Some(u64::MAX));
    assert_eq!(share_of(u64::MAX, 1_000), Some(u64::MAX / 10));
    assert_eq!(share_of(u64::MAX, 10_001), None);
}

#[test]
fn fees_fail_closed_outside_the_caps() {
    assert_eq!(compute_fees(u64::MAX, 1_000, 10_001), Err(ErrorCode::ArithmeticOverflow));
    assert_eq!(compute_fees(10_000, 10_001, 0), Err(ErrorCode::ArithmeticOverflow));
    assert_eq!(compute_fees(u64::MAX, 0, 10_001), Err(ErrorCode::ArithmeticOverflow));
    assert_eq!(
        compute_fees(100, 10_000, 0),
        Ok(FeeBreakdown { platform_fee: 100, commission: 0, net_amount: 0 })
    );
}

#[test]
fn commission_is_not_deducted_from_net() {
    let a = compute_fees(1_000_000, 250, 0).unwrap();
    let b = compute_fees(1_000_000, 250, 10_000).unwrap();
    assert_eq!(a.net_amount, b.net_amount);
    assert_eq!(b.commission, 1_000_000);
    assert!(b.platform_fee + b.commission > 1_000_000);
}
