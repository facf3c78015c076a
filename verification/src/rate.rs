//! Fixed-point exchange rate and reserve-factor arithmetic.
//!
//! The exchange rate between the staking asset and the liquid derivative is
//! a non-negative rational, stored as an integer scaled by `RATE_ONE`
//! (eighteen decimal places).  The reserve factor is a fraction stored in
//! parts per million, scaled by `RATIO_ONE`.  All conversions round down.

use vstd::prelude::*;
use vstd::arithmetic::div_mod::{
    lemma_fundamental_div_mod, lemma_fundamental_div_mod_converse, lemma_div_is_ordered,
    lemma_div_multiples_vanish,
};
use vstd::arithmetic::mul::lemma_mul_inequality;

verus! {

/// Exchange rate scaled by `RATE_ONE`: a stored value of `RATE_ONE`
/// means one liquid unit per staking unit.
pub type Rate = u128;

/// Fraction in parts per million, at most `RATIO_ONE`.
pub type Ratio = u32;

/// Scale of `Rate`: ten to the eighteenth power.
pub const RATE_ONE: u128 = 1_000_000_000_000_000_000;

/// Scale of `Ratio`: one million parts make the whole.
pub const RATIO_ONE: u32 = 1_000_000;

/// Two to the sixty-fourth power, used to split a balance into halves.
pub const POW64: u128 = 0x1_0000_0000_0000_0000;

/// The fraction `factor / RATIO_ONE` of `amount`, rounded down.
pub open spec fn ratio_mul_floor_spec(factor: Ratio, amount: u128) -> int {
    (amount * factor) / (RATIO_ONE as int)
}

/// Staking amount converted to liquid units: `amount / rate`, rounded
/// down.  `None` when the rate is zero or the scaled numerator does not
/// fit into a balance.
pub open spec fn staking_to_liquid_spec(rate: Rate, amount: u128) -> Option<u128> {
    if rate == 0 {
        None
    } else if amount * RATE_ONE > u128::MAX {
        None
    } else {
        Some(((amount * RATE_ONE) / (rate as int)) as u128)
    }
}

/// Liquid amount converted to staking units: `liquid * rate`, rounded
/// down.  `None` when the product does not fit into a balance.
pub open spec fn liquid_to_staking_spec(rate: Rate, liquid: u128) -> Option<u128> {
    if liquid * rate > u128::MAX {
        None
    } else {
        Some(((liquid * rate) / (RATE_ONE as int)) as u128)
    }
}

/// The rate `numerator / denominator`, rounded down to the fixed-point
/// grid.  `None` when the denominator is zero or the scaled numerator
/// does not fit into a balance.
pub open spec fn rate_from_rational_spec(numerator: u128, denominator: u128) -> Option<Rate> {
    if denominator == 0 {
        None
    } else if numerator * RATE_ONE > u128::MAX {
        None
    } else {
        Some(((numerator * RATE_ONE) / (denominator as int)) as Rate)
    }
}

/// A parts-per-million fraction of a balance is itself a balance: it is
/// never negative and never more than the whole.
pub proof fn lemma_ratio_mul_floor_bounds(factor: Ratio, amount: u128)
    requires
        factor <= RATIO_ONE,
    ensures
        0 <= ratio_mul_floor_spec(factor, amount) <= amount,
{
    let a = amount as int;
    let m = factor as int;
    let d = RATIO_ONE as int;
    assert(a * m >= 0) by (nonlinear_arith)
        requires
            a >= 0,
            m >= 0,
    ;
    vstd::arithmetic::div_mod::lemma_div_pos_is_pos(a * m, d);
    assert(a * m <= a * d) by {
        lemma_mul_inequality(m, d, a);
        assert(a * m == m * a) by (nonlinear_arith);
        assert(a * d == d * a) by (nonlinear_arith);
    };
    lemma_div_is_ordered(a * m, a * d, d);
    lemma_div_multiples_vanish(a, d);
    assert((a * d) / d == a) by {
        assert(a * d == d * a) by (nonlinear_arith);
    };
}

/// Multiplies a balance by a parts-per-million fraction, rounding down.
/// The product `amount * factor` may exceed a balance, so the
/// computation splits `amount` at two to the sixty-fourth power and
/// long-divides the halves.
pub fn ratio_mul_floor(factor: Ratio, amount: u128) -> (r: u128)
    requires
        factor <= RATIO_ONE,
    ensures
        r == ratio_mul_floor_spec(factor, amount),
        r <= amount,
{
    let d: u128 = RATIO_ONE as u128;
    let m: u128 = factor as u128;
    let hi: u128 = amount / POW64;
    let lo: u128 = amount % POW64;
    proof {
        lemma_fundamental_div_mod(amount as int, POW64 as int);
        assert(hi < POW64) by {
            lemma_div_is_ordered(amount as int, (u128::MAX) as int, POW64 as int);
        };
        assert(hi * m < POW64 * (RATIO_ONE as int) + 1) by (nonlinear_arith)
            requires
                hi < POW64,
                m <= RATIO_ONE,
                0 <= hi,
                0 <= m,
        ;
    }
    let t_hi: u128 = hi * m;
    let q1: u128 = t_hi / d;
    let r1: u128 = t_hi % d;
    proof {
        lemma_fundamental_div_mod(t_hi as int, d as int);
        assert(q1 <= hi) by (nonlinear_arith)
            requires
                q1 == t_hi / d,
                t_hi == hi * m,
                0 < d,
                m <= d,
                0 <= hi,
        ;
        assert(lo * m < POW64 * (RATIO_ONE as int) + 1) by (nonlinear_arith)
            requires
                lo < POW64,
                m <= RATIO_ONE,
                0 <= lo,
                0 <= m,
        ;
    }
    let t_lo: u128 = r1 * POW64 + lo * m;
    let q2: u128 = t_lo / d;
    proof {
        let a = amount as int;
        let q = q1 * POW64 + q2;
        let r2 = t_lo as int % d as int;
        lemma_fundamental_div_mod(t_lo as int, d as int);
        assert(a * m == q * d + r2) by (nonlinear_arith)
            requires
                a == POW64 * hi + lo,
                t_hi == hi * m,
                t_hi == d * q1 + r1,
                t_lo == r1 * POW64 + lo * m,
                t_lo == d * q2 + r2,
                q == q1 * POW64 + q2,
        ;
        lemma_fundamental_div_mod_converse(a * m, d as int, q, r2);
        assert(q == (a * m) / (d as int));
        assert(a * m <= a * d) by {
            lemma_mul_inequality(m as int, d as int, a);
            assert(a * m == m * a) by (nonlinear_arith);
            assert(a * d == d * a) by (nonlinear_arith);
        };
        lemma_div_is_ordered(a * m, a * d, d as int);
        lemma_div_multiples_vanish(a, d as int);
        assert((a * d) / (d as int) == a) by {
            assert(a * d == d * a) by (nonlinear_arith);
        };
        assert(q <= a);
    }
    q1 * POW64 + q2
}

/// Converts a staking amount to liquid units at the given rate.
pub fn staking_to_liquid(rate: Rate, amount: u128) -> (r: Option<u128>)
    ensures
        r == staking_to_liquid_spec(rate, amount),
{
    if rate == 0 {
        return None;
    }
    match amount.checked_mul(RATE_ONE) {
        None => None,
        Some(scaled) => Some(scaled / rate),
    }
}

/// Converts a liquid amount to staking units at the given rate.
pub fn liquid_to_staking(rate: Rate, liquid: u128) -> (r: Option<u128>)
    ensures
        r == liquid_to_staking_spec(rate, liquid),
{
    match liquid.checked_mul(rate) {
        None => None,
        Some(scaled) => Some(scaled / RATE_ONE),
    }
}

/// Derives a rate from a value and an issuance.
pub fn rate_from_rational(numerator: u128, denominator: u128) -> (r: Option<Rate>)
    ensures
        r == rate_from_rational_spec(numerator, denominator),
{
    if denominator == 0 {
        return None;
    }
    match numerator.checked_mul(RATE_ONE) {
        None => None,
        Some(scaled) => Some(scaled / denominator),
    }
}

/// Converting a staking amount to liquid units and back never gains
/// value: rounding loses at most a fraction, and at a rate of exactly
/// one the round trip is the identity.
pub proof fn lemma_conversion_round_trip(rate: Rate, amount: u128)
    requires
        rate > 0,
        amount * RATE_ONE <= u128::MAX,
    ensures
        staking_to_liquid_spec(rate, amount) is Some,
        liquid_to_staking_spec(rate, staking_to_liquid_spec(rate, amount)->Some_0) is Some,
        liquid_to_staking_spec(rate, staking_to_liquid_spec(rate, amount)->Some_0)->Some_0
            <= amount,
        rate == RATE_ONE ==> liquid_to_staking_spec(
            rate,
            staking_to_liquid_spec(rate, amount)->Some_0,
        )->Some_0 == amount,
{
    let k = RATE_ONE as int;
    let r = rate as int;
    let a = amount as int;
    let scaled = a * k;
    let liquid = scaled / r;
    lemma_fundamental_div_mod(scaled, r);
    assert(liquid * r <= scaled) by (nonlinear_arith)
        requires
            scaled == r * liquid + scaled % r,
            scaled % r >= 0,
    ;
    assert(liquid >= 0) by (nonlinear_arith)
        requires
            liquid * r <= scaled,
            scaled >= 0,
            r > 0,
            liquid == scaled / r,
            scaled == r * liquid + scaled % r,
            scaled % r < r,
    ;
    assert(liquid * r >= 0) by (nonlinear_arith)
        requires
            liquid >= 0,
            r > 0,
    ;
    lemma_div_is_ordered(liquid * r, scaled, k);
    lemma_div_multiples_vanish(a, k);
    assert(scaled / k == a) by {
        assert(a * k == k * a) by (nonlinear_arith);
    };
    if rate == RATE_ONE {
        assert(liquid == a);
        assert(liquid * r == scaled) by (nonlinear_arith)
            requires
                liquid == a,
                r == k,
                scaled == a * k,
        ;
    }
}

} // verus!
