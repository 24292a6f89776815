//! Fee arithmetic: platform fee, affiliate commission and net amount in basis points.
//!
//! Products are taken in 128 bits, so no amount overflows on the way, and a part that
//! does not fit its 64 bits is an error, never a wrapped number. The commission is a share
//! of the gross amount and leaves the net amount alone; nothing here bounds the sum of fee
//! and commission by the amount.

use vstd::prelude::*;
use crate::error::ErrorCode;

verus! {

/// One basis point is 1/10000 of a unit.
pub const BPS_DENOMINATOR: u64 = 10000;

/// Hard cap on the platform fee: 10%.
pub const MAX_PLATFORM_FEE_BPS: u16 = 1000;

/// Hard cap on the commission: 100%.
pub const MAX_COMMISSION_BPS: u16 = 10000;

/// `floor(amount * bps / 10000)` over the unbounded integers.
pub open spec fn bps_share(amount: int, bps: int) -> int {
    amount * bps / (BPS_DENOMINATOR as int)
}

/// What a settlement charges and moves.
#[derive(Clone, Copy, Debug, PartialEq, Eq, Structural)]
pub struct FeeBreakdown {
    /// Share of the gross amount kept by the platform.
    pub platform_fee: u64,
    /// Share of the gross amount credited to the affiliate; recorded, never deducted.
    pub commission: u64,
    /// Gross amount less the platform fee: the only amount that moves.
    pub net_amount: u64,
}

/// The breakdown of `amount` at the two rates, where every part fits: the commission in
/// 64 bits, the platform fee within the amount.
pub open spec fn fee_breakdown(amount: u64, platform_fee_bps: u16, commission_bps: u16) -> Option<
    FeeBreakdown,
> {
    let fee = bps_share(amount as int, platform_fee_bps as int);
    let commission = bps_share(amount as int, commission_bps as int);
    if fee <= amount && commission <= u64::MAX {
        Some(
            FeeBreakdown {
                platform_fee: fee as u64,
                commission: commission as u64,
                net_amount: (amount - fee) as u64,
            },
        )
    } else {
        None
    }
}

/// The share of `amount` at `bps` basis points, computed in 128 bits; `None` where it
/// does not fit in 64.
pub fn share_of(amount: u64, bps: u16) -> (r: Option<u64>)
    ensures
        bps_share(amount as int, bps as int) >= 0,
        r == if bps_share(amount as int, bps as int) <= u64::MAX {
            Some(bps_share(amount as int, bps as int) as u64)
        } else {
            None
        },
{
    let wide_amount: u128 = amount as u128;
    let wide_bps: u128 = bps as u128;
    assert(0 <= wide_amount * wide_bps <= 0xffff_ffff_ffff_ffff * 0xffff) by (nonlinear_arith)
        requires
            wide_amount <= 0xffff_ffff_ffff_ffff,
            wide_bps <= 0xffff,
    ;
    match wide_amount.checked_mul(wide_bps) {
        None => None,
        Some(product) => match product.checked_div(BPS_DENOMINATOR as u128) {
            None => None,
            Some(share) => if share > 0xffff_ffff_ffff_ffff {
                None
            } else {
                Some(share as u64)
            },
        },
    }
}

/// Splits `amount` at the two rates, or fails closed with `ArithmeticOverflow`.
pub fn compute_fees(amount: u64, platform_fee_bps: u16, commission_bps: u16) -> (r: Result<
    FeeBreakdown,
    ErrorCode,
>)
    ensures
        r == match fee_breakdown(amount, platform_fee_bps, commission_bps) {
            Some(f) => Ok::<FeeBreakdown, ErrorCode>(f),
            None => Err::<FeeBreakdown, ErrorCode>(ErrorCode::ArithmeticOverflow),
        },
{
    let platform_fee: u64 = match share_of(amount, platform_fee_bps) {
        Some(fee) => fee,
        None => {
            return Err(ErrorCode::ArithmeticOverflow);
        },
    };
    let commission: u64 = match share_of(amount, commission_bps) {
        Some(c) => c,
        None => {
            return Err(ErrorCode::ArithmeticOverflow);
        },
    };
    match amount.checked_sub(platform_fee) {
        Some(net_amount) => Ok(FeeBreakdown { platform_fee, commission, net_amount }),
        None => Err(ErrorCode::ArithmeticOverflow),
    }
}

/// A share at no more than 10000 basis points is between zero and the amount.
pub proof fn lemma_share_bounded(amount: int, bps: int)
    requires
        0 <= amount,
        0 <= bps <= 10000,
    ensures
        0 <= bps_share(amount, bps) <= amount,
{
    assert(0 <= amount * bps <= amount * 10000) by (nonlinear_arith)
        requires
            0 <= amount,
            0 <= bps <= 10000,
    ;
}

/// Within the caps every settlement has a breakdown: the platform fee is
/// `floor(amount * fee_bps / 10000)`, at most a tenth of the amount, and the net amount is
/// the amount less the fee, so never more than the amount.
pub proof fn lemma_platform_fee_within_cap(amount: u64, fee_bps: u16, commission_bps: u16)
    requires
        fee_bps <= MAX_PLATFORM_FEE_BPS,
        commission_bps <= MAX_COMMISSION_BPS,
    ensures
        fee_breakdown(amount, fee_bps, commission_bps) is Some,
        fee_breakdown(amount, fee_bps, commission_bps)->0.platform_fee == amount * fee_bps / 10000,
        fee_breakdown(amount, fee_bps, commission_bps)->0.platform_fee <= amount / 10,
        fee_breakdown(amount, fee_bps, commission_bps)->0.net_amount == amount - amount * fee_bps
            / 10000,
        fee_breakdown(amount, fee_bps, commission_bps)->0.net_amount <= amount,
{
    lemma_share_bounded(amount as int, commission_bps as int);
    assert(0 <= amount * fee_bps <= amount * 1000) by (nonlinear_arith)
        requires
            0 <= amount,
            0 <= fee_bps <= 1000,
    ;
}

/// The commission is `floor(amount * commission_bps / 10000)` whatever the platform fee is,
/// and the net amount is the same whatever the commission is: the commission is never
/// deducted from what moves.
pub proof fn lemma_commission_independent(
    amount: u64,
    fee_bps: u16,
    other_fee_bps: u16,
    commission_bps: u16,
    other_commission_bps: u16,
)
    requires
        fee_bps <= MAX_PLATFORM_FEE_BPS,
        other_fee_bps <= MAX_PLATFORM_FEE_BPS,
        commission_bps <= MAX_COMMISSION_BPS,
        other_commission_bps <= MAX_COMMISSION_BPS,
    ensures
        fee_breakdown(amount, fee_bps, commission_bps) is Some,
        fee_breakdown(amount, other_fee_bps, commission_bps) is Some,
        fee_breakdown(amount, fee_bps, other_commission_bps) is Some,
        fee_breakdown(amount, fee_bps, commission_bps)->0.commission == amount * commission_bps
            / 10000,
        fee_breakdown(amount, fee_bps, commission_bps)->0.commission <= amount,
        fee_breakdown(amount, fee_bps, commission_bps)->0.commission == fee_breakdown(
            amount,
            other_fee_bps,
            commission_bps,
        )->0.commission,
        fee_breakdown(amount, fee_bps, commission_bps)->0.net_amount == fee_breakdown(
            amount,
            fee_bps,
            other_commission_bps,
        )->0.net_amount,
{
    lemma_platform_fee_within_cap(amount, fee_bps, commission_bps);
    lemma_platform_fee_within_cap(amount, other_fee_bps, commission_bps);
    lemma_platform_fee_within_cap(amount, fee_bps, other_commission_bps);
    lemma_share_bounded(amount as int, commission_bps as int);
}

} // verus!
