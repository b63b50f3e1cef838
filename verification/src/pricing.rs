//! The bonding curve. The marginal price of one unit of supply is
//! `0.003 * supply^2`; the cost of a batch is the definite integral of the
//! marginal price from the current supply to the supply after the purchase,
//! computed in integer arithmetic with the quotient rounded down.
use vstd::prelude::*;

verus! {

/// Quantities are expressed in the reserve asset's smallest denomination,
/// with nine decimal places to the whole token.
pub const DECIMALS: u32 = 9;

/// `1000 * (10^DECIMALS)^2`, the divisor that folds the curve constant
/// `k = 0.003` and the unit normalization into one integer division.
pub const PRICE_DENOMINATOR: u128 = 1_000_000_000_000_000_000_000;

/// The cubic term of the curve, `x^3`, over unbounded integers.
pub open spec fn cube(x: int) -> int {
    x * x * x
}

/// True when the cubic term of `supply + lamports` stays within 128-bit
/// intermediate precision; outside this range the cost is not computable.
pub open spec fn price_in_range(supply: int, lamports: int) -> bool {
    cube(supply + lamports) <= u128::MAX
}

/// The lamport cost of minting `lamports` units against `supply` outstanding
/// units: the integral of the marginal price, rounded down.
pub open spec fn spec_price(supply: int, lamports: int) -> int {
    (cube(supply + lamports) - cube(supply)) / (PRICE_DENOMINATOR as int)
}

/// Cost of buying `lamports` units of a creator token whose mint currently
/// has `supply` outstanding units. Rounds down, in the purchaser's favor.
pub fn price(supply: u64, lamports: u64) -> (r: u64)
    requires
        price_in_range(supply as int, lamports as int),
    ensures
        r == spec_price(supply as int, lamports as int),
{
    let total: u128 = supply as u128 + lamports as u128;
    let s: u128 = supply as u128;
    proof {
        let t = total as int;
        assert(t * t <= t * t * t && s as int * s as int <= t * t
            && cube(s as int) <= cube(t) && 0 <= cube(s as int)) by (nonlinear_arith)
            requires s as int <= t, 0 <= s as int, cube(t) <= u128::MAX,
        ;
        vstd::arithmetic::div_mod::lemma_div_is_ordered(
            cube(t) - cube(s as int),
            u128::MAX as int,
            PRICE_DENOMINATOR as int,
        );
        assert(u128::MAX as int / (PRICE_DENOMINATOR as int) < u64::MAX as int);
    }
    let numerator: u128 = total * total * total - s * s * s;
    (numerator / PRICE_DENOMINATOR) as u64
}

/// The curve's numerator expanded: `(s+q)^3 - s^3 == 3s^2 q + 3s q^2 + q^3`.
proof fn lemma_cube_difference(s: int, q: int)
    ensures
        cube(s + q) - cube(s) == 3 * s * s * q + 3 * s * q * q + q * q * q,
{
    assert(cube(s + q) - cube(s) == 3 * s * s * q + 3 * s * q * q + q * q * q)
        by (nonlinear_arith);
}

/// Buying nothing costs nothing, whatever the current supply.
pub proof fn lemma_price_of_zero(supply: int)
    ensures
        spec_price(supply, 0) == 0,
{
    vstd::arithmetic::div_mod::lemma_div_of0(PRICE_DENOMINATOR as int);
}

/// The cost is monotonically non-decreasing in both the current supply and
/// the purchased quantity.
pub proof fn lemma_price_monotonic(s1: int, q1: int, s2: int, q2: int)
    requires
        0 <= s1 <= s2,
        0 <= q1 <= q2,
    ensures
        spec_price(s1, q1) <= spec_price(s2, q2),
{
    lemma_cube_difference(s1, q1);
    lemma_cube_difference(s2, q2);
    assert(3 * s1 * s1 * q1 + 3 * s1 * q1 * q1 + q1 * q1 * q1
        <= 3 * s2 * s2 * q2 + 3 * s2 * q2 * q2 + q2 * q2 * q2) by (nonlinear_arith)
        requires 0 <= s1 <= s2, 0 <= q1 <= q2,
    ;
    vstd::arithmetic::div_mod::lemma_div_is_ordered(
        cube(s1 + q1) - cube(s1),
        cube(s2 + q2) - cube(s2),
        PRICE_DENOMINATOR as int,
    );
}

} // verus!
