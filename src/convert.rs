use vstd::prelude::*;

use vstd::arithmetic::div_mod::lemma_div_multiples_vanish_quotient;
use vstd::arithmetic::mul::{lemma_mul_increases, lemma_mul_nonnegative};

use crate::commands::Direction;
use crate::error::ExchangeBoothError;

verus! {

/// Ten to the power `n`.
pub open spec fn pow10(n: nat) -> nat
    decreases n,
{
    if n == 0 {
        1
    } else {
        10 * pow10((n - 1) as nat)
    }
}

/// The multiplicative discount left after the fee, scaled by `10^decimals_fee`:
/// `10^decimals_fee - fee`.
pub open spec fn fee_koeff(fee: u64, decimals_fee: u8) -> int {
    pow10(decimals_fee as nat) - fee
}

/// The exact converted amount, rounded down.
///
/// Towards B the amount is divided by the rate; towards A it is multiplied by
/// it. Either way the fee discount `fee_koeff / 10^decimals_fee` is applied and
/// each operand is read at its own decimal scale.
pub open spec fn converted_amount(
    rate_a_to_b: u64,
    value: u64,
    fee: u64,
    direction: Direction,
    decimals_rate: u8,
    decimals_a: u8,
    decimals_b: u8,
    decimals_fee: u8,
) -> int {
    let k = fee_koeff(fee, decimals_fee);
    match direction {
        Direction::ToB => (value * k * pow10((decimals_b + decimals_rate) as nat)) / (rate_a_to_b
            * pow10((decimals_a + decimals_fee) as nat)),
        Direction::ToA => (value * rate_a_to_b * k * pow10(decimals_a as nat)) / (pow10(
            (decimals_b + decimals_rate + decimals_fee) as nat,
        ) as int),
    }
}

/// The power of ten by which the fee-discounted amount is scaled: positive
/// values multiply, negative values divide.
pub open spec fn net_exponent(
    direction: Direction,
    decimals_rate: u8,
    decimals_a: u8,
    decimals_b: u8,
    decimals_fee: u8,
) -> int {
    match direction {
        Direction::ToB => decimals_b + decimals_rate - decimals_a - decimals_fee,
        Direction::ToA => decimals_a - decimals_b - decimals_rate - decimals_fee,
    }
}

/// The numerator and the divisor of the conversion once the decimal scales
/// are folded into a single power of ten.
pub open spec fn scaled_operands(
    rate_a_to_b: u64,
    value: u64,
    fee: u64,
    direction: Direction,
    decimals_rate: u8,
    decimals_a: u8,
    decimals_b: u8,
    decimals_fee: u8,
) -> (int, int) {
    let k = fee_koeff(fee, decimals_fee);
    let d = net_exponent(direction, decimals_rate, decimals_a, decimals_b, decimals_fee);
    match direction {
        Direction::ToB => if d >= 0 {
            (pow10(d as nat) * value * k, rate_a_to_b as int)
        } else {
            (value * k, pow10((-d) as nat) * rate_a_to_b)
        },
        Direction::ToA => if d >= 0 {
            (value * pow10(d as nat) * rate_a_to_b * k, 1)
        } else {
            (value * rate_a_to_b * k, pow10((-d) as nat) as int)
        },
    }
}

/// The conversion can be carried out: the divisor is not zero, numerator and
/// divisor each fit in 128 bits, and the result fits in 64 bits.
pub open spec fn conversion_fits(
    rate_a_to_b: u64,
    value: u64,
    fee: u64,
    direction: Direction,
    decimals_rate: u8,
    decimals_a: u8,
    decimals_b: u8,
    decimals_fee: u8,
) -> bool {
    let ops = scaled_operands(
        rate_a_to_b,
        value,
        fee,
        direction,
        decimals_rate,
        decimals_a,
        decimals_b,
        decimals_fee,
    );
    &&& !(direction == Direction::ToB && rate_a_to_b == 0)
    &&& ops.0 <= u128::MAX
    &&& ops.1 <= u128::MAX
    &&& converted_amount(
        rate_a_to_b,
        value,
        fee,
        direction,
        decimals_rate,
        decimals_a,
        decimals_b,
        decimals_fee,
    ) <= u64::MAX
}

/// What `convert` returns on the given inputs.
pub open spec fn conversion_outcome(
    rate_a_to_b: u64,
    value: u64,
    fee: u64,
    direction: Direction,
    decimals_rate: u8,
    decimals_a: u8,
    decimals_b: u8,
    decimals_fee: u8,
) -> Result<u64, ExchangeBoothError> {
    if fee >= pow10(decimals_fee as nat) {
        Err(ExchangeBoothError::FeeOverMaxError)
    } else if conversion_fits(
        rate_a_to_b,
        value,
        fee,
        direction,
        decimals_rate,
        decimals_a,
        decimals_b,
        decimals_fee,
    ) {
        Ok(
            converted_amount(
                rate_a_to_b,
                value,
                fee,
                direction,
                decimals_rate,
                decimals_a,
                decimals_b,
                decimals_fee,
            ) as u64,
        )
    } else {
        Err(ExchangeBoothError::ConversionError)
    }
}

pub proof fn lemma_pow10_positive(n: nat)
    ensures
        pow10(n) > 0,
    decreases n,
{
    if n > 0 {
        lemma_pow10_positive((n - 1) as nat);
    }
}

pub proof fn lemma_pow10_add(a: nat, b: nat)
    ensures
        pow10(a + b) == pow10(a) * pow10(b),
    decreases a,
{
    if a > 0 {
        let a1 = (a - 1) as nat;
        lemma_pow10_add(a1, b);
        assert((a + b - 1) as nat == a1 + b);
        assert(pow10(a + b) == 10 * pow10(a1 + b));
        assert(pow10(a) == 10 * pow10(a1));
        let x = pow10(a1) as int;
        let y = pow10(b) as int;
        assert(10 * (x * y) == (10 * x) * y) by (nonlinear_arith);
    } else {
        assert(pow10(a) == 1);
        assert(a + b == b);
    }
}

pub proof fn lemma_pow10_monotone(a: nat, b: nat)
    requires
        a <= b,
    ensures
        pow10(a) <= pow10(b),
    decreases b,
{
    if a < b {
        lemma_pow10_monotone(a, (b - 1) as nat);
    }
}

/// Ten to the 38th fits in 128 bits and ten to the 39th exceeds them by more
/// than any 64-bit value.
proof fn lemma_pow10_128_bits()
    ensures
        pow10(38) <= u128::MAX,
        pow10(39) > u128::MAX + u64::MAX,
{
    reveal_with_fuel(pow10, 40);
}

/// A non-negative quantity held in 128 bits, or `None` where it exceeds them.
spec fn wide_holds(w: Option<u128>, x: int) -> bool {
    match w {
        Some(v) => v == x,
        None => x > u128::MAX,
    }
}

fn wide_mul(a: Option<u128>, b: Option<u128>, Ghost(x): Ghost<int>, Ghost(y): Ghost<int>) -> (r:
    Option<u128>)
    requires
        x >= 0,
        y >= 0,
        wide_holds(a, x),
        wide_holds(b, y),
    ensures
        wide_holds(r, x * y),
{
    if a == Some(0u128) || b == Some(0u128) {
        proof {
            if a == Some(0u128) {
                assert(x == 0);
            } else {
                assert(y == 0);
            }
            assert(x * y == 0) by (nonlinear_arith)
                requires
                    x == 0 || y == 0,
            ;
        }
        return Some(0);
    }
    match (a, b) {
        (Some(p), Some(q)) => p.checked_mul(q),
        _ => {
            proof {
                lemma_mul_increases(x, y);
                lemma_mul_increases(y, x);
                assert(x * y == y * x) by (nonlinear_arith);
            }
            None
        },
    }
}

/// Ten to the power `n`, or `None` where it does not fit in 128 bits.
fn wide_pow10(n: u32) -> (r: Option<u128>)
    ensures
        wide_holds(r, pow10(n as nat) as int),
        r is None <==> n >= 39,
{
    proof {
        lemma_pow10_128_bits();
    }
    if n >= 39 {
        proof {
            lemma_pow10_monotone(39, n as nat);
        }
        return None;
    }
    let mut acc: u128 = 1;
    let mut i: u32 = 0;
    while i < n
        invariant
            i <= n < 39,
            acc == pow10(i as nat),
            pow10(38) <= u128::MAX,
        decreases n - i,
    {
        proof {
            lemma_pow10_monotone((i + 1) as nat, 38);
            assert(pow10((i + 1) as nat) == 10 * pow10(i as nat));
        }
        acc = acc * 10;
        i = i + 1;
    }
    Some(acc)
}

/// The discount factor `10^decimals_fee - fee`, once the fee is known to be
/// below `10^decimals_fee`.
fn wide_fee_koeff(p: Option<u128>, fee: u64, Ghost(decimals_fee): Ghost<u8>) -> (r: Option<u128>)
    requires
        wide_holds(p, pow10(decimals_fee as nat) as int),
        p is None <==> decimals_fee >= 39,
        fee < pow10(decimals_fee as nat),
    ensures
        wide_holds(r, fee_koeff(fee, decimals_fee)),
{
    match p {
        Some(v) => Some(v - fee as u128),
        None => {
            proof {
                lemma_pow10_128_bits();
                lemma_pow10_monotone(39, decimals_fee as nat);
            }
            None
        },
    }
}

proof fn lemma_cancel_common_factor(x: int, y: int, c: int)
    requires
        x >= 0,
        y > 0,
        c > 0,
    ensures
        (x * c) / (y * c) == x / y,
{
    lemma_div_multiples_vanish_quotient(c, x, y);
    assert(c * x == x * c && c * y == y * c) by (nonlinear_arith);
}

/// The exact conversion equals the quotient of the scaled operands.
pub(crate) proof fn lemma_scaled_operands_quotient(
    rate_a_to_b: u64,
    value: u64,
    fee: u64,
    direction: Direction,
    decimals_rate: u8,
    decimals_a: u8,
    decimals_b: u8,
    decimals_fee: u8,
)
    requires
        fee <= pow10(decimals_fee as nat),
        !(direction == Direction::ToB && rate_a_to_b == 0),
    ensures
        ({
            let ops = scaled_operands(
                rate_a_to_b,
                value,
                fee,
                direction,
                decimals_rate,
                decimals_a,
                decimals_b,
                decimals_fee,
            );
            &&& ops.0 >= 0
            &&& ops.1 > 0
            &&& converted_amount(
                rate_a_to_b,
                value,
                fee,
                direction,
                decimals_rate,
                decimals_a,
                decimals_b,
                decimals_fee,
            ) == ops.0 / ops.1
        }),
{
    let k = fee_koeff(fee, decimals_fee);
    let v = value as int;
    let rate = rate_a_to_b as int;
    let d = net_exponent(direction, decimals_rate, decimals_a, decimals_b, decimals_fee);
    let ops = scaled_operands(
        rate_a_to_b,
        value,
        fee,
        direction,
        decimals_rate,
        decimals_a,
        decimals_b,
        decimals_fee,
    );
    assert(k >= 0);
    lemma_mul_nonnegative(v, k);
    match direction {
        Direction::ToB => {
            let up = (decimals_b + decimals_rate) as nat;
            let down = (decimals_a + decimals_fee) as nat;
            if d >= 0 {
                let pd: int = pow10(d as nat) as int;
                lemma_pow10_add(d as nat, down);
                assert(up == d as nat + down);
                lemma_pow10_positive(down);
                lemma_pow10_positive(d as nat);
                let pdown: int = pow10(down) as int;
                assert(v * k * (pd * pdown) == (pd * v * k) * pdown) by (nonlinear_arith);
                assert(pd * v * k >= 0) by (nonlinear_arith)
                    requires
                        pd > 0,
                        v >= 0,
                        k >= 0,
                ;
                lemma_cancel_common_factor(pd * v * k, rate, pdown);
            } else {
                let e = (-d) as nat;
                let pe: int = pow10(e) as int;
                lemma_pow10_add(e, up);
                assert(down == e + up);
                lemma_pow10_positive(up);
                lemma_pow10_positive(e);
                let pup: int = pow10(up) as int;
                assert(rate * (pe * pup) == (pe * rate) * pup) by (nonlinear_arith);
                assert(pe * rate > 0) by (nonlinear_arith)
                    requires
                        pe > 0,
                        rate > 0,
                ;
                lemma_cancel_common_factor(v * k, pe * rate, pup);
            }
        },
        Direction::ToA => {
            let down = (decimals_b + decimals_rate + decimals_fee) as nat;
            let pa: int = pow10(decimals_a as nat) as int;
            lemma_pow10_positive(decimals_a as nat);
            lemma_pow10_positive(down);
            assert(v * rate * k >= 0) by (nonlinear_arith)
                requires
                    v >= 0,
                    rate >= 0,
                    k >= 0,
            ;
            if d >= 0 {
                let pd: int = pow10(d as nat) as int;
                lemma_pow10_positive(d as nat);
                lemma_pow10_add(d as nat, down);
                assert(decimals_a as nat == d as nat + down);
                let pdown: int = pow10(down) as int;
                assert(v * rate * k * (pd * pdown) == (v * pd * rate * k) * pdown)
                    by (nonlinear_arith);
                assert(v * pd * rate * k >= 0) by (nonlinear_arith)
                    requires
                        v >= 0,
                        rate >= 0,
                        k >= 0,
                        pd > 0,
                ;
                lemma_cancel_common_factor(v * pd * rate * k, 1, pdown);
                assert(1 * pdown == pdown);
            } else {
                let e = (-d) as nat;
                let pe: int = pow10(e) as int;
                lemma_pow10_add(e, decimals_a as nat);
                assert(down == e + decimals_a as nat);
                lemma_pow10_positive(e);
                lemma_cancel_common_factor(v * rate * k, pe, pa);
            }
        },
    }
}

/// Whether the fee is below 100%: `fee < 10^decimals_fee`.
pub fn fee_below_max(fee: u64, decimals_fee: u8) -> (r: bool)
    ensures
        r == (fee < pow10(decimals_fee as nat)),
{
    match wide_pow10(decimals_fee as u32) {
        Some(p) => (fee as u128) < p,
        None => {
            proof {
                lemma_pow10_128_bits();
                lemma_pow10_monotone(39, decimals_fee as nat);
            }
            true
        },
    }
}

/// Converts `value` of one asset into the other at `rate_a_to_b`, less the
/// fee, reading every operand at its own decimal scale.
///
/// All intermediate arithmetic is carried out in 128 bits; the result is
/// exact (rounded down) or an error, never a wrapped value.
pub fn convert(
    rate_a_to_b: u64,
    value: u64,
    fee: u64,
    direction: Direction,
    decimals_rate: u8,
    decimals_a: u8,
    decimals_b: u8,
    decimals_fee: u8,
) -> (r: Result<u64, ExchangeBoothError>)
    ensures
        r == conversion_outcome(
            rate_a_to_b,
            value,
            fee,
            direction,
            decimals_rate,
            decimals_a,
            decimals_b,
            decimals_fee,
        ),
{
    if !fee_below_max(fee, decimals_fee) {
        return Err(ExchangeBoothError::FeeOverMaxError);
    }
    let p_fee = wide_pow10(decimals_fee as u32);
    let k = wide_fee_koeff(p_fee, fee, Ghost(decimals_fee));
    let ghost gk = fee_koeff(fee, decimals_fee);
    let ghost gv = value as int;
    let ghost grate = rate_a_to_b as int;
    let ghost ops = scaled_operands(
        rate_a_to_b,
        value,
        fee,
        direction,
        decimals_rate,
        decimals_a,
        decimals_b,
        decimals_fee,
    );

    if direction == Direction::ToB && rate_a_to_b == 0 {
        return Err(ExchangeBoothError::ConversionError);
    }
    let d: i32 = match direction {
        Direction::ToB => decimals_b as i32 + decimals_rate as i32 - decimals_a as i32
            - decimals_fee as i32,
        Direction::ToA => decimals_a as i32 - decimals_b as i32 - decimals_rate as i32
            - decimals_fee as i32,
    };
    let scale = if d >= 0 {
        wide_pow10(d as u32)
    } else {
        wide_pow10((-d) as u32)
    };
    let ghost gp: int = if d >= 0 {
        pow10(d as nat) as int
    } else {
        pow10((-d) as nat) as int
    };
    proof {
        lemma_pow10_positive(if d >= 0 {
            d as nat
        } else {
            (-d) as nat
        });
        assert(gk > 0);
    }
    let (numerator, divisor) = match direction {
        Direction::ToB => {
            if d >= 0 {
                let n1 = wide_mul(scale, Some(value as u128), Ghost(gp), Ghost(gv));
                proof {
                    lemma_mul_nonnegative(gp, gv);
                }
                (wide_mul(n1, k, Ghost(gp * gv), Ghost(gk)), Some(rate_a_to_b as u128))
            } else {
                (
                    wide_mul(Some(value as u128), k, Ghost(gv), Ghost(gk)),
                    wide_mul(scale, Some(rate_a_to_b as u128), Ghost(gp), Ghost(grate)),
                )
            }
        },
        Direction::ToA => {
            if d >= 0 {
                let n1 = wide_mul(Some(value as u128), scale, Ghost(gv), Ghost(gp));
                proof {
                    lemma_mul_nonnegative(gv, gp);
                    lemma_mul_nonnegative(gv * gp, grate);
                }
                let n2 = wide_mul(n1, Some(rate_a_to_b as u128), Ghost(gv * gp), Ghost(grate));
                (wide_mul(n2, k, Ghost(gv * gp * grate), Ghost(gk)), Some(1u128))
            } else {
                let n1 = wide_mul(Some(value as u128), Some(rate_a_to_b as u128), Ghost(gv), Ghost(grate));
                proof {
                    lemma_mul_nonnegative(gv, grate);
                }
                (wide_mul(n1, k, Ghost(gv * grate), Ghost(gk)), scale)
            }
        },
    };
    proof {
        assert(wide_holds(numerator, ops.0));
        assert(wide_holds(divisor, ops.1));
        lemma_scaled_operands_quotient(
            rate_a_to_b,
            value,
            fee,
            direction,
            decimals_rate,
            decimals_a,
            decimals_b,
            decimals_fee,
        );
    }
    match (numerator, divisor) {
        (Some(n), Some(q)) => {
            let product = n / q;
            if product > u64::MAX as u128 {
                Err(ExchangeBoothError::ConversionError)
            } else {
                Ok(product as u64)
            }
        },
        _ => Err(ExchangeBoothError::ConversionError),
    }
}

/// Converting twice with identical inputs gives identical results: the
/// outcome is a function of the inputs alone.
pub proof fn lemma_convert_deterministic(
    rate_a_to_b: u64,
    value: u64,
    fee: u64,
    direction: Direction,
    decimals_rate: u8,
    decimals_a: u8,
    decimals_b: u8,
    decimals_fee: u8,
    first: Result<u64, ExchangeBoothError>,
    second: Result<u64, ExchangeBoothError>,
)
    requires
        first == conversion_outcome(
            rate_a_to_b,
            value,
            fee,
            direction,
            decimals_rate,
            decimals_a,
            decimals_b,
            decimals_fee,
        ),
        second == conversion_outcome(
            rate_a_to_b,
            value,
            fee,
            direction,
            decimals_rate,
            decimals_a,
            decimals_b,
            decimals_fee,
        ),
    ensures
        first == second,
{
}

/// A fee of `10^decimals_fee` or more (100% or more) is refused with
/// `FeeOverMaxError`, whatever the other inputs.
pub proof fn lemma_fee_over_max_refused(
    rate_a_to_b: u64,
    value: u64,
    fee: u64,
    direction: Direction,
    decimals_rate: u8,
    decimals_a: u8,
    decimals_b: u8,
    decimals_fee: u8,
)
    requires
        fee >= pow10(decimals_fee as nat),
    ensures
        conversion_outcome(
            rate_a_to_b,
            value,
            fee,
            direction,
            decimals_rate,
            decimals_a,
            decimals_b,
            decimals_fee,
        ) == Err::<u64, ExchangeBoothError>(ExchangeBoothError::FeeOverMaxError),
{
}

/// A conversion never yields a wrapped or truncated value: it yields the exact
/// rounded-down amount, `FeeOverMaxError` exactly where the fee is 100% or
/// more, or `ConversionError` exactly where the amount exceeds 64 bits, an
/// operand exceeds 128 bits or the rate to divide by is zero.
pub proof fn lemma_conversion_never_wraps(
    rate_a_to_b: u64,
    value: u64,
    fee: u64,
    direction: Direction,
    decimals_rate: u8,
    decimals_a: u8,
    decimals_b: u8,
    decimals_fee: u8,
)
    ensures
        ({
            let exact = converted_amount(
                rate_a_to_b,
                value,
                fee,
                direction,
                decimals_rate,
                decimals_a,
                decimals_b,
                decimals_fee,
            );
            let ops = scaled_operands(
                rate_a_to_b,
                value,
                fee,
                direction,
                decimals_rate,
                decimals_a,
                decimals_b,
                decimals_fee,
            );
            match conversion_outcome(
                rate_a_to_b,
                value,
                fee,
                direction,
                decimals_rate,
                decimals_a,
                decimals_b,
                decimals_fee,
            ) {
                Ok(v) => v == exact,
                Err(e) => if fee >= pow10(decimals_fee as nat) {
                    e == ExchangeBoothError::FeeOverMaxError
                } else {
                    e == ExchangeBoothError::ConversionError && (exact > u64::MAX || ops.0
                        > u128::MAX || ops.1 > u128::MAX || (direction == Direction::ToB
                        && rate_a_to_b == 0))
                },
            }
        }),
{
    if fee < pow10(decimals_fee as nat) && !(direction == Direction::ToB && rate_a_to_b == 0) {
        lemma_scaled_operands_quotient(
            rate_a_to_b,
            value,
            fee,
            direction,
            decimals_rate,
            decimals_a,
            decimals_b,
            decimals_fee,
        );
    }
}

/// Where `x * f <= y * f` with `f > 0`, `x <= y`; strictly likewise.
proof fn lemma_cancel_positive_factor(x: int, y: int, f: int)
    requires
        f > 0,
        x * f <= y * f,
    ensures
        x <= y,
        x * f < y * f ==> x < y,
{
    assert(x <= y) by (nonlinear_arith)
        requires
            f > 0,
            x * f <= y * f,
    ;
}

/// The arithmetic core of a round trip: dividing by `r * q` and multiplying
/// back by `r * a` (or the reverse), with `q = a * f`, `d = p * f` and a
/// discount `k <= f` applied on each leg, never exceeds the start.
proof fn lemma_round_trip_core(
    v: int,
    w: int,
    back: int,
    r: int,
    k: int,
    f: int,
    p: int,
    a: int,
    q: int,
    d: int,
    to_b_first: bool,
)
    requires
        v >= 0,
        r > 0,
        0 <= k <= f,
        f > 0,
        p > 0,
        a > 0,
        q == a * f,
        d == p * f,
        to_b_first ==> w == (v * k * p) / (r * q),
        to_b_first ==> back == (w * r * k * a) / d,
        !to_b_first ==> w == (v * r * k * a) / d,
        !to_b_first ==> back == (w * k * p) / (r * q),
    ensures
        back <= v,
        k < f && v > 0 ==> back < v,
{
    assert(r * q > 0 && d > 0) by (nonlinear_arith)
        requires
            r > 0,
            q == a * f,
            d == p * f,
            a > 0,
            f > 0,
            p > 0,
    ;
    assert(v * k * k * p <= v * f * f * p && (k < f && v > 0 ==> v * k * k * p < v * f * f * p))
        by (nonlinear_arith)
        requires
            v >= 0,
            0 <= k <= f,
            p > 0,
    ;
    if to_b_first {
        let x = v * k * p;
        let y = w * r * k * a;
        assert(w >= 0 && w * (r * q) <= x) by (nonlinear_arith)
            requires
                w == x / (r * q),
                r * q > 0,
                x == v * k * p,
                v >= 0,
                k >= 0,
                p > 0,
        ;
        assert(y * f <= x * k) by (nonlinear_arith)
            requires
                y == w * r * k * a,
                q == a * f,
                w * (r * q) <= x,
                k >= 0,
        ;
        assert(y * f <= v * d * f && (k < f && v > 0 ==> y * f < v * d * f)) by (nonlinear_arith)
            requires
                y * f <= x * k,
                x == v * k * p,
                d == p * f,
                v * k * k * p <= v * f * f * p,
                k < f && v > 0 ==> v * k * k * p < v * f * f * p,
        ;
        lemma_cancel_positive_factor(y, v * d, f);
        assert(back <= v && (y < v * d ==> back < v)) by (nonlinear_arith)
            requires
                back == y / d,
                d > 0,
                y <= v * d,
                y >= 0,
        ;
        assert(y >= 0) by (nonlinear_arith)
            requires
                y == w * r * k * a,
                w >= 0,
                r > 0,
                k >= 0,
                a > 0,
        ;
    } else {
        let x = v * r * k * a;
        let y = w * k * p;
        assert(w >= 0 && w * d <= x) by (nonlinear_arith)
            requires
                w == x / d,
                d > 0,
                x == v * r * k * a,
                v >= 0,
                r > 0,
                k >= 0,
                a > 0,
        ;
        assert(y * f <= x * k) by (nonlinear_arith)
            requires
                y == w * k * p,
                d == p * f,
                w * d <= x,
                k >= 0,
        ;
        assert(y * f <= v * (r * q) * f && (k < f && v > 0 ==> y * f < v * (r * q) * f))
            by (nonlinear_arith)
            requires
                y * f <= x * k,
                x == v * r * k * a,
                q == a * f,
                r > 0,
                a > 0,
                f > 0,
                v * k * k * p <= v * f * f * p,
                k < f && v > 0 ==> v * k * k * p < v * f * f * p,
                p > 0,
        ;
        lemma_cancel_positive_factor(y, v * (r * q), f);
        assert(y >= 0) by (nonlinear_arith)
            requires
                y == w * k * p,
                w >= 0,
                k >= 0,
                p > 0,
        ;
        assert(back <= v && (y < v * (r * q) ==> back < v)) by (nonlinear_arith)
            requires
                back == y / (r * q),
                r * q > 0,
                y <= v * (r * q),
                y >= 0,
        ;
    }
}

/// Converting an amount to the other asset and back, at the same rate, fee
/// and scales, never gains value; with a fee and a non-zero amount it always
/// loses some, so the two directions are not inverses.
pub proof fn lemma_round_trip_never_gains(
    rate_a_to_b: u64,
    value: u64,
    fee: u64,
    first: Direction,
    decimals_rate: u8,
    decimals_a: u8,
    decimals_b: u8,
    decimals_fee: u8,
    there: u64,
    back: u64,
)
    requires
        conversion_outcome(
            rate_a_to_b,
            value,
            fee,
            first,
            decimals_rate,
            decimals_a,
            decimals_b,
            decimals_fee,
        ) == Ok::<u64, ExchangeBoothError>(there),
        conversion_outcome(
            rate_a_to_b,
            there,
            fee,
            if first == Direction::ToB {
                Direction::ToA
            } else {
                Direction::ToB
            },
            decimals_rate,
            decimals_a,
            decimals_b,
            decimals_fee,
        ) == Ok::<u64, ExchangeBoothError>(back),
    ensures
        back <= value,
        fee > 0 && value > 0 ==> back < value,
{
    let f = pow10(decimals_fee as nat) as int;
    let p = pow10((decimals_b + decimals_rate) as nat) as int;
    let a = pow10(decimals_a as nat) as int;
    let q = pow10((decimals_a + decimals_fee) as nat) as int;
    let d = pow10((decimals_b + decimals_rate + decimals_fee) as nat) as int;
    let k = fee_koeff(fee, decimals_fee);
    lemma_pow10_positive(decimals_fee as nat);
    lemma_pow10_positive((decimals_b + decimals_rate) as nat);
    lemma_pow10_positive(decimals_a as nat);
    lemma_pow10_add(decimals_a as nat, decimals_fee as nat);
    lemma_pow10_add((decimals_b + decimals_rate) as nat, decimals_fee as nat);
    assert((decimals_a + decimals_fee) as nat == decimals_a as nat + decimals_fee as nat);
    assert((decimals_b + decimals_rate + decimals_fee) as nat == (decimals_b + decimals_rate) as nat
        + decimals_fee as nat);
    assert(q == a * f);
    assert(d == p * f);
    assert(q > 0 && d > 0) by (nonlinear_arith)
        requires
            q == a * f,
            d == p * f,
            a > 0,
            f > 0,
            p > 0,
    ;
    assert(rate_a_to_b > 0) by {
        if rate_a_to_b == 0 {
            if first == Direction::ToA {
                assert(there == 0) by (nonlinear_arith)
                    requires
                        there == (value * rate_a_to_b * k * a) / d,
                        rate_a_to_b == 0,
                        d > 0,
                ;
            }
        }
    }
    let second = if first == Direction::ToB {
        Direction::ToA
    } else {
        Direction::ToB
    };
    let e1 = converted_amount(
        rate_a_to_b,
        value,
        fee,
        first,
        decimals_rate,
        decimals_a,
        decimals_b,
        decimals_fee,
    );
    let e2 = converted_amount(
        rate_a_to_b,
        there,
        fee,
        second,
        decimals_rate,
        decimals_a,
        decimals_b,
        decimals_fee,
    );
    assert(k >= 0);
    assert(e1 >= 0 && e2 >= 0) by {
        lemma_mul_nonnegative(value as int, k);
        lemma_mul_nonnegative(there as int, k);
        assert(e1 >= 0 && e2 >= 0) by (nonlinear_arith)
            requires
                e1 == (if first == Direction::ToB {
                    (value * k * p) / (rate_a_to_b * q)
                } else {
                    (value * rate_a_to_b * k * a) / d
                }),
                e2 == (if first == Direction::ToB {
                    (there * rate_a_to_b * k * a) / d
                } else {
                    (there * k * p) / (rate_a_to_b * q)
                }),
                k >= 0,
                rate_a_to_b > 0,
                p > 0,
                a > 0,
                q > 0,
                d > 0,
        ;
    }
    assert(there == e1);
    assert(back == e2);
    lemma_round_trip_core(
        value as int,
        there as int,
        back as int,
        rate_a_to_b as int,
        k,
        f,
        p,
        a,
        q,
        d,
        first == Direction::ToB,
    );
}

} // verus!
