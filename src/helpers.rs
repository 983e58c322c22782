use vstd::prelude::*;

use vstd::arithmetic::mul::lemma_mul_nonnegative;

use crate::commands::Direction;
use crate::convert::{
    converted_amount,
    fee_koeff,
    lemma_pow10_positive,
    lemma_scaled_operands_quotient,
    net_exponent,
    pow10,
};

verus! {

/// Every step of the conversion, evaluated left to right in 64 bits, stays
/// within 64 bits, and the fee does not exceed 100%.
pub open spec fn fits_in_64_bits(
    rate_a_to_b: u64,
    value: u64,
    fee: u64,
    direction: Direction,
    decimals_rate: u8,
    decimals_a: u8,
    decimals_b: u8,
    decimals_fee: u8,
) -> bool {
    let k = fee_koeff(fee, decimals_fee);
    let d = net_exponent(direction, decimals_rate, decimals_a, decimals_b, decimals_fee);
    &&& pow10(decimals_fee as nat) <= u64::MAX
    &&& k >= 0
    &&& match direction {
        Direction::ToB => rate_a_to_b != 0 && if d >= 0 {
            &&& pow10(d as nat) <= u64::MAX
            &&& pow10(d as nat) * value <= u64::MAX
            &&& pow10(d as nat) * value * k <= u64::MAX
        } else {
            &&& value * k <= u64::MAX
            &&& pow10((-d) as nat) <= u64::MAX
            &&& pow10((-d) as nat) * rate_a_to_b <= u64::MAX
        },
        Direction::ToA => if d >= 0 {
            &&& pow10(d as nat) <= u64::MAX
            &&& value * pow10(d as nat) <= u64::MAX
            &&& value * pow10(d as nat) * rate_a_to_b <= u64::MAX
            &&& value * pow10(d as nat) * rate_a_to_b * k <= u64::MAX
        } else {
            &&& value * rate_a_to_b <= u64::MAX
            &&& value * rate_a_to_b * k <= u64::MAX
            &&& pow10((-d) as nat) <= u64::MAX
        },
    }
}

fn pow10_u64(n: u32) -> (r: u64)
    requires
        pow10(n as nat) <= u64::MAX,
    ensures
        r == pow10(n as nat),
{
    let mut acc: u64 = 1;
    let mut i: u32 = 0;
    while i < n
        invariant
            i <= n,
            acc == pow10(i as nat),
            pow10(n as nat) <= u64::MAX,
        decreases n - i,
    {
        proof {
            crate::convert::lemma_pow10_monotone((i + 1) as nat, n as nat);
            assert(pow10((i + 1) as nat) == 10 * pow10(i as nat));
        }
        acc = acc * 10;
        i = i + 1;
    }
    acc
}

/// The conversion of `convert` carried out in 64-bit arithmetic throughout,
/// for inputs on which no step leaves 64 bits.
pub fn convert(
    rate_a_to_b: u64,
    value: u64,
    fee: u64,
    direction: Direction,
    decimals_rate: u8,
    decimals_a: u8,
    decimals_b: u8,
    decimals_fee: u8,
) -> (r: u64)
    requires
        fits_in_64_bits(
            rate_a_to_b,
            value,
            fee,
            direction,
            decimals_rate,
            decimals_a,
            decimals_b,
            decimals_fee,
        ),
    ensures
        r == converted_amount(
            rate_a_to_b,
            value,
            fee,
            direction,
            decimals_rate,
            decimals_a,
            decimals_b,
            decimals_fee,
        ),
{
    proof {
        lemma_scaled_operands_quotient(
            rate_a_to_b,
            value,
            fee,
            direction,
            decimals_rate,
            decimals_a,
            decimals_b,
            decimals_fee,
        );
    }
    let fee_koeff = pow10_u64(decimals_fee as u32) - fee;

    if direction == Direction::ToB {
        let decimals = decimals_b as i16 + decimals_rate as i16 - decimals_a as i16
            - decimals_fee as i16;

        if decimals >= 0 {
            let p = pow10_u64(decimals as u32);
            proof {
                lemma_mul_nonnegative(p as int, value as int);
            }
            p * value * fee_koeff / rate_a_to_b
        } else {
            let p = pow10_u64((-decimals) as u32);
            proof {
                lemma_pow10_positive((-decimals) as nat);
                assert(p * rate_a_to_b > 0) by (nonlinear_arith)
                    requires
                        p > 0,
                        rate_a_to_b > 0,
                ;
            }
            value * fee_koeff / (p * rate_a_to_b)
        }
    } else {
        let decimals = decimals_a as i16 - decimals_b as i16 - decimals_rate as i16
            - decimals_fee as i16;

        if decimals >= 0 {
            let p = pow10_u64(decimals as u32);
            proof {
                lemma_mul_nonnegative(value as int, p as int);
                lemma_mul_nonnegative(value * p, rate_a_to_b as int);
            }
            value * p * rate_a_to_b * fee_koeff
        } else {
            let p = pow10_u64((-decimals) as u32);
            proof {
                lemma_pow10_positive((-decimals) as nat);
                lemma_mul_nonnegative(value as int, rate_a_to_b as int);
            }
            value * rate_a_to_b * fee_koeff / p
        }
    }
}

} // verus!
