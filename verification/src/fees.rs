use crate::storage_types::MAX_BASIS_POINTS;
use crate::transitions::fee_share;
use vstd::prelude::*;

verus! {

/// The part of a positive `price` that a rate of `rate` basis points takes,
/// rounded down. The product of the two is never formed, so every price that
/// can be listed is served.
pub fn fee_amount(price: i128, rate: u32) -> (fee: i128)
    requires
        price > 0,
        rate <= MAX_BASIS_POINTS,
    ensures
        fee == fee_share(price as int, rate as int),
        0 <= fee <= price,
{
    let whole: i128 = price / 10000;
    let rest: i128 = price % 10000;
    let rate_wide: i128 = rate as i128;
    proof {
        lemma_fee_by_parts(price as int, rate as int);
        assert(0 <= whole * rate_wide <= whole * 10000) by (nonlinear_arith)
            requires
                0 <= whole,
                0 <= rate_wide <= 10000,
        ;
        assert(0 <= rest * rate_wide <= rest * 10000) by (nonlinear_arith)
            requires
                0 <= rest,
                0 <= rate_wide <= 10000,
        ;
    }
    whole * rate_wide + rest * rate_wide / 10000
}

/// A fee can be reckoned on the ten-thousands of a price and on what is left
/// of it separately, and lies between nothing and the price.
pub proof fn lemma_fee_by_parts(price: int, rate: int)
    requires
        price >= 0,
        0 <= rate <= 10000,
    ensures
        fee_share(price, rate) == (price / 10000) * rate + ((price % 10000) * rate) / 10000,
        0 <= fee_share(price, rate) <= price,
{
    let whole = price / 10000;
    let rest = price % 10000;
    assert(price == 10000 * whole + rest);
    assert(price * rate == 10000 * (whole * rate) + rest * rate) by (nonlinear_arith)
        requires
            price == 10000 * whole + rest,
    ;
    assert(0 <= rest * rate) by (nonlinear_arith)
        requires
            0 <= rest,
            0 <= rate,
    ;
    assert((10000 * (whole * rate) + rest * rate) / 10000 == whole * rate + (rest * rate) / 10000)
        by (nonlinear_arith)
        requires
            0 <= rest * rate,
    ;
    assert(0 <= price * rate <= price * 10000) by (nonlinear_arith)
        requires
            0 <= price,
            0 <= rate <= 10000,
    ;
    assert(0 <= (price * rate) / 10000 <= price) by (nonlinear_arith)
        requires
            0 <= price * rate <= price * 10000,
    ;
}

} // verus!
