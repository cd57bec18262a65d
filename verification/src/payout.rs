//! Settlement of a delivered purchase.
//!
//! On delivery the escrowed amount is split once, deterministically, from
//! integer amounts: the platform keeps a 2% fee, an enabled affiliate takes
//! a percentage of the seller's post-fee share, and the seller receives the
//! remainder. Fractional remainders round toward the seller, never toward
//! the buyer.

use vstd::prelude::*;

verus! {

/// The seller's share before any affiliate split: the escrowed amount less
/// the 2% platform fee, rounded down.
pub open spec fn spec_seller_base(value: u128) -> int {
    (value * 98) / 100
}

/// The platform fee: whatever the 2% truncation leaves beyond the seller's
/// base share.
pub open spec fn spec_platform_fee(value: u128) -> int {
    value - spec_seller_base(value)
}

/// The affiliate's cut: a percentage of the seller's post-fee share,
/// rounded down, and nothing when no affiliate is attached and enabled.
pub open spec fn spec_affiliate_amount(value: u128, affiliate_enabled: bool, percentage: u32) -> int {
    if affiliate_enabled {
        spec_seller_base(value) * percentage / 100
    } else {
        0
    }
}

/// The seller's final amount: the post-fee share less the affiliate's cut.
pub open spec fn spec_seller_amount(value: u128, affiliate_enabled: bool, percentage: u32) -> int {
    spec_seller_base(value) - spec_affiliate_amount(value, affiliate_enabled, percentage)
}

/// How the escrowed amount of a delivered purchase is distributed.
#[derive(Debug)]
pub struct PayoutSplit {
    /// Transferred to the store sub-account.
    pub seller_amount: u128,
    /// Transferred to the affiliate, zero when none is attached and enabled.
    pub affiliate_amount: u128,
    /// Kept by the platform.
    pub platform_fee: u128,
}

/// Funds conservation: however the percentages truncate, the three shares
/// of a delivered purchase always add up exactly to the escrowed amount,
/// and none of them is negative.
pub proof fn lemma_funds_conserved(value: u128, affiliate_enabled: bool, percentage: u32)
    requires
        percentage <= 100,
    ensures
        spec_seller_amount(value, affiliate_enabled, percentage) + spec_affiliate_amount(
            value,
            affiliate_enabled,
            percentage,
        ) + spec_platform_fee(value) == value,
        0 <= spec_platform_fee(value),
        0 <= spec_affiliate_amount(value, affiliate_enabled, percentage),
        0 <= spec_seller_amount(value, affiliate_enabled, percentage),
{
    lemma_payout_bounds(value, percentage);
}

/// The seller's base share is at most the escrowed amount, and an affiliate
/// cut of at most one hundred percent is at most the base share.
proof fn lemma_payout_bounds(value: u128, percentage: u32)
    requires
        percentage <= 100,
    ensures
        0 <= spec_seller_base(value) <= value,
        0 <= spec_seller_base(value) * percentage / 100 <= spec_seller_base(value),
{
    assert(value * 98 <= value * 100) by (nonlinear_arith);
    assert(0 <= value * 98) by (nonlinear_arith);
    vstd::arithmetic::div_mod::lemma_div_is_ordered(value * 98, value * 100, 100);
    vstd::arithmetic::div_mod::lemma_div_by_multiple(value as int, 100);
    assert(value * 100 / 100 == value);
    let base = spec_seller_base(value);
    assert(base * percentage <= base * 100) by (nonlinear_arith)
        requires
            0 <= base,
            percentage <= 100,
    ;
    assert(0 <= base * percentage) by (nonlinear_arith)
        requires
            0 <= base,
            0 <= percentage,
    ;
    vstd::arithmetic::div_mod::lemma_div_is_ordered(base * percentage, base * 100, 100);
    vstd::arithmetic::div_mod::lemma_div_by_multiple(base, 100);
    assert(base * 100 / 100 == base);
}

/// Computes the split of an escrowed amount among seller, affiliate, and
/// platform fee. The affiliate takes a share only when attached and
/// enabled; truncation always favors the seller.
pub fn compute_payout(value_locked: u128, affiliate_enabled: bool, percentage: u32) -> (split:
    PayoutSplit)
    requires
        value_locked <= u128::MAX / 100,
        percentage <= 100,
    ensures
        split.seller_amount == spec_seller_amount(value_locked, affiliate_enabled, percentage),
        split.affiliate_amount == spec_affiliate_amount(value_locked, affiliate_enabled, percentage),
        split.platform_fee == spec_platform_fee(value_locked),
        split.seller_amount + split.affiliate_amount + split.platform_fee == value_locked,
{
    proof {
        lemma_payout_bounds(value_locked, percentage);
        assert(value_locked * 98 <= u128::MAX) by (nonlinear_arith)
            requires
                value_locked <= u128::MAX / 100,
        ;
    }
    let base: u128 = value_locked * 98 / 100;
    proof {
        assert(base * percentage <= u128::MAX) by (nonlinear_arith)
            requires
                0 <= base <= value_locked,
                value_locked <= u128::MAX / 100,
                percentage <= 100,
        ;
    }
    let affiliate_amount: u128 = if affiliate_enabled {
        base * (percentage as u128) / 100
    } else {
        0
    };
    PayoutSplit {
        seller_amount: base - affiliate_amount,
        affiliate_amount,
        platform_fee: value_locked - base,
    }
}

} // verus!
