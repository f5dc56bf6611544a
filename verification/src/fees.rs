//! Fee arithmetic.
//!
//! Given a gross amount and a fee rate in basis points, the fee is the
//! truncating integer share `amount * rate / 10000` and the seller receives
//! the exact remainder, so the two always sum back to the gross amount. All
//! arithmetic is overflow-checked and fails closed.

use vstd::prelude::*;
use vstd::arithmetic::div_mod::lemma_div_is_ordered;
use vstd::arithmetic::div_mod::lemma_div_multiples_vanish;
use vstd::arithmetic::mul::lemma_mul_inequality;
use vstd::arithmetic::mul::lemma_mul_nonnegative;
use crate::errors::MarketplaceError;

verus! {

/// Highest accepted fee rate: 1000 basis points, i.e. 10%.
pub const MAX_FEE_BPS: u16 = 1000;

/// Basis points in the whole: 10000 bps = 100%.
pub const BPS_DENOMINATOR: u64 = 10000;

/// The operator's fee on a gross amount: `total * fee_bps / 10000`,
/// truncating toward zero.
pub open spec fn fee_amount(total: u64, fee_bps: u16) -> int {
    (total as int) * (fee_bps as int) / (BPS_DENOMINATOR as int)
}

/// What the seller keeps of a gross amount after the operator's fee.
pub open spec fn seller_amount(total: u64, fee_bps: u16) -> int {
    total as int - fee_amount(total, fee_bps)
}

/// Conservation: the seller's share and the fee always recompose the gross
/// amount exactly; integer-division truncation loses nothing, it only moves
/// the remainder to the seller.
pub proof fn lemma_split_conserves_total(total: u64, fee_bps: u16)
    ensures
        seller_amount(total, fee_bps) + fee_amount(total, fee_bps) == total,
{
}

/// The fee never exceeds the gross amount as long as the rate is at most
/// 100%; with the 10% protocol cap this holds a fortiori.
pub proof fn lemma_fee_le_total(total: u64, fee_bps: u16)
    requires
        fee_bps <= BPS_DENOMINATOR,
    ensures
        0 <= fee_amount(total, fee_bps) <= total,
{
    let t = total as int;
    let b = fee_bps as int;
    let d = BPS_DENOMINATOR as int;
    lemma_mul_nonnegative(t, b);
    lemma_div_is_ordered(0, t * b, d);
    lemma_mul_inequality(b, d, t);
    assert(b * t == t * b) by (nonlinear_arith);
    assert(d * t == t * d) by (nonlinear_arith);
    lemma_div_is_ordered(t * b, t * d, d);
    lemma_div_multiples_vanish(t, d);
}

/// Splits a gross amount between seller and operator at the given fee rate.
///
/// Returns `Ok((seller_share, fee))` with `seller_share + fee == total`
/// exactly; fails with `MathOverflow` if and only if `total * fee_bps`
/// exceeds the 64-bit range or the fee would exceed the total (impossible for
/// any rate of at most 100%).
pub fn compute_split(total: u64, fee_bps: u16) -> (r: Result<(u64, u64), MarketplaceError>)
    ensures
        r is Ok <==> (total as int) * (fee_bps as int) <= u64::MAX
            && fee_amount(total, fee_bps) <= total,
        r matches Ok(split) ==> {
            &&& split.1 == fee_amount(total, fee_bps)
            &&& split.0 == seller_amount(total, fee_bps)
            &&& split.0 + split.1 == total
        },
        r is Err ==> r == Err::<(u64, u64), MarketplaceError>(MarketplaceError::MathOverflow),
{
    let scaled = match total.checked_mul(fee_bps as u64) {
        Some(s) => s,
        None => {
            return Err(MarketplaceError::MathOverflow);
        },
    };
    let fee = scaled / BPS_DENOMINATOR;
    let seller_share = match total.checked_sub(fee) {
        Some(s) => s,
        None => {
            return Err(MarketplaceError::MathOverflow);
        },
    };
    Ok((seller_share, fee))
}

} // verus!
