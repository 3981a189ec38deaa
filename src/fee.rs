use vstd::prelude::*;

use crate::error::ErrorCode;

verus! {

/// Basis points in a whole: a fee rate of this many takes the full price.
pub const FEE_DENOMINATOR: u64 = 10000;

/// The largest fee rate that a marketplace may charge.
pub const MAX_FEE_BASIS_POINTS: u16 = 10000;

/// The platform fee on `price` at `fee_basis_points`, rounded down: the
/// platform, not the seller, absorbs the rounding loss.
pub open spec fn fee_of(price: nat, fee_basis_points: nat) -> nat {
    (price * fee_basis_points) / (FEE_DENOMINATOR as nat)
}

/// How a price divides between the platform and the seller.
#[derive(Clone, Copy, Debug, PartialEq, Eq, Structural)]
pub struct FeeSplit {
    pub fee: u64,
    pub seller_amount: u64,
}

/// The split of `price` at `fee_basis_points`, or `ArithmeticOverflow` where
/// the fee would exceed the price (only possible above the largest valid rate).
pub open spec fn split_of(price: u64, fee_basis_points: u16) -> Result<FeeSplit, ErrorCode> {
    let fee = fee_of(price as nat, fee_basis_points as nat);
    if fee <= price {
        Ok(FeeSplit { fee: fee as u64, seller_amount: (price - fee) as u64 })
    } else {
        Err(ErrorCode::ArithmeticOverflow)
    }
}

proof fn lemma_product_bound(price: u64, fee_basis_points: u16)
    ensures
        (price as nat) * (fee_basis_points as nat) <= 0xffff_ffff_ffff_ffff * 0xffff,
{
    assert((price as nat) * (fee_basis_points as nat) <= 0xffff_ffff_ffff_ffff * 0xffff)
        by (nonlinear_arith)
        requires
            price <= 0xffff_ffff_ffff_ffff,
            fee_basis_points <= 0xffff,
    ;
}

/// Divides `price` into the platform fee and the seller's proceeds. The
/// product is formed in 128 bits, so no precision is lost before the division.
pub fn split_price(price: u64, fee_basis_points: u16) -> (r: Result<FeeSplit, ErrorCode>)
    ensures
        r == split_of(price, fee_basis_points),
{
    proof {
        lemma_product_bound(price, fee_basis_points);
    }
    let product: u128 = (price as u128) * (fee_basis_points as u128);
    let fee_wide: u128 = product / (FEE_DENOMINATOR as u128);
    if fee_wide > price as u128 {
        return Err(ErrorCode::ArithmeticOverflow);
    }
    let fee: u64 = fee_wide as u64;
    Ok(FeeSplit { fee, seller_amount: price - fee })
}

/// At every valid rate the split succeeds, and the fee and the seller's
/// proceeds add up to the price: no value is created or destroyed.
pub proof fn lemma_split_conserves_price(price: u64, fee_basis_points: u16)
    requires
        fee_basis_points <= MAX_FEE_BASIS_POINTS,
    ensures
        split_of(price, fee_basis_points) is Ok,
        split_of(price, fee_basis_points)->Ok_0.fee + split_of(price, fee_basis_points)->Ok_0.seller_amount
            == price,
        split_of(price, fee_basis_points)->Ok_0.fee <= price,
{
    let p = price as nat;
    let b = fee_basis_points as nat;
    assert(p * b <= p * 10000) by (nonlinear_arith)
        requires
            b <= 10000,
    ;
    assert((p * b) / 10000 <= p) by (nonlinear_arith)
        requires
            p * b <= p * 10000,
    ;
}

} // verus!
