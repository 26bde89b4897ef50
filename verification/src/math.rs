use vstd::prelude::*;
use crate::types::Error;

verus! {

/// Whether a mathematical integer is representable as an `i128`.
pub open spec fn fits_i128(x: int) -> bool {
    i128::MIN <= x <= i128::MAX
}

/// Quotient of `x` by `d`, rounded toward zero.
pub open spec fn trunc_div(x: int, d: int) -> int
    recommends
        d != 0,
{
    if x >= 0 {
        if d > 0 {
            x / d
        } else {
            -(x / (-d))
        }
    } else {
        if d > 0 {
            -((-x) / d)
        } else {
            (-x) / (-d)
        }
    }
}

/// `a * b / c` in 128-bit arithmetic with the quotient rounded toward zero,
/// or `None` where the divisor is zero or a step leaves the `i128` range.
pub open spec fn spec_mul_div(a: i128, b: i128, c: i128) -> Option<i128> {
    let q = trunc_div(a * b, c as int);
    if c != 0 && fits_i128(a * b) && fits_i128(q) {
        Some(q as i128)
    } else {
        None
    }
}

/// Computes `a * b / c`, refusing instead of overflowing or dividing by zero.
pub fn mul_div(a: i128, b: i128, c: i128) -> (r: Option<i128>)
    ensures
        r == spec_mul_div(a, b, c),
{
    match a.checked_mul(b) {
        None => None,
        Some(p) => p.checked_div(c),
    }
}

/// The part of a swap's input that is priced, after the 0.3% fee is kept:
/// `amount * 997 / 1000`, rounded toward zero.
pub open spec fn spec_amount_in_with_fee(amount: i128) -> i128 {
    trunc_div(amount * 997, 1000) as i128
}

/// Computes `amount * 997 / 1000` without forming the product, so that no
/// amount overflows.
#[verifier::when_used_as_spec(spec_amount_in_with_fee)]
pub fn amount_in_with_fee(amount: i128) -> (r: i128)
    ensures
        r == spec_amount_in_with_fee(amount),
        r == trunc_div(amount * 997, 1000),
        amount >= 0 ==> r == amount * 997 / 1000,
{
    let q: i128 = amount / 1000;
    let m: i128 = amount % 1000;
    q * 997 + m * 997 / 1000
}

/// What a swap pays out under the constant-product rule:
/// `reserve_out * f / (reserve_in + f)` with `f` the input after the fee,
/// or `None` where that cannot be computed in 128-bit arithmetic.
pub open spec fn spec_amount_out(reserve_in: i128, reserve_out: i128, amount: i128) -> Option<
    i128,
> {
    let f = spec_amount_in_with_fee(amount);
    if fits_i128(reserve_in + f) {
        spec_mul_div(reserve_out, f, (reserve_in + f) as i128)
    } else {
        None
    }
}

#[verifier::when_used_as_spec(spec_amount_out)]
pub fn amount_out(reserve_in: i128, reserve_out: i128, amount: i128) -> (r: Option<i128>)
    ensures
        r == spec_amount_out(reserve_in, reserve_out, amount),
{
    let f: i128 = amount_in_with_fee(amount);
    match reserve_in.checked_add(f) {
        None => None,
        Some(d) => mul_div(reserve_out, f, d),
    }
}

/// The amounts a deposit takes from the depositor and the reserves it leaves.
#[derive(Clone, Copy, Debug, PartialEq, Eq, Structural)]
pub struct DepositQuote {
    pub amount_a: i128,
    pub amount_b: i128,
    pub reserve_a: i128,
    pub reserve_b: i128,
}

/// Adds accepted amounts to the reserves of a funded pool; `None` where a sum
/// leaves the `i128` range.
pub open spec fn spec_grow(reserve_a: i128, reserve_b: i128, in_a: i128, in_b: i128) -> Option<
    Result<DepositQuote, Error>,
> {
    if fits_i128(reserve_a + in_a) && fits_i128(reserve_b + in_b) {
        Some(
            Ok(
                DepositQuote {
                    amount_a: in_a,
                    amount_b: in_b,
                    reserve_a: (reserve_a + in_a) as i128,
                    reserve_b: (reserve_b + in_b) as i128,
                },
            ),
        )
    } else {
        None
    }
}

/// The outcome of a deposit against the given reserves.
///
/// Into an empty pool (`reserve_a == 0`) both desired amounts must exceed one
/// unit and are taken as they are. Into a funded pool the deposit keeps the
/// ratio of the reserves: asset B is matched to `desired_a` where that stays
/// within `desired_b` and reaches `min_b`; otherwise asset A is matched to
/// `desired_b` and must lie between `min_a` and `desired_a`. The outer `None`
/// marks inputs on which a product, quotient or sum cannot be formed in
/// 128-bit arithmetic.
pub open spec fn spec_quote_deposit(
    reserve_a: i128,
    reserve_b: i128,
    desired_a: i128,
    min_a: i128,
    desired_b: i128,
    min_b: i128,
) -> Option<Result<DepositQuote, Error>> {
    if reserve_a == 0 {
        if desired_a <= 1 || desired_b <= 1 {
            Some(Err(Error::InvalidAmount))
        } else {
            Some(
                Ok(
                    DepositQuote {
                        amount_a: desired_a,
                        amount_b: desired_b,
                        reserve_a: desired_a,
                        reserve_b: desired_b,
                    },
                ),
            )
        }
    } else {
        match spec_mul_div(reserve_b, desired_a, reserve_a) {
            None => None,
            Some(amount_b) => if amount_b <= desired_b {
                if amount_b < min_b {
                    Some(Err(Error::InvalidAmount))
                } else {
                    spec_grow(reserve_a, reserve_b, desired_a, amount_b)
                }
            } else {
                match spec_mul_div(reserve_a, desired_b, reserve_b) {
                    None => None,
                    Some(amount_a) => if amount_a > desired_a || amount_a < min_a {
                        Some(Err(Error::InvalidAmount))
                    } else {
                        spec_grow(reserve_a, reserve_b, amount_a, desired_b)
                    },
                }
            },
        }
    }
}

fn grow(reserve_a: i128, reserve_b: i128, in_a: i128, in_b: i128) -> (r: Option<
    Result<DepositQuote, Error>,
>)
    ensures
        r == spec_grow(reserve_a, reserve_b, in_a, in_b),
{
    match (reserve_a.checked_add(in_a), reserve_b.checked_add(in_b)) {
        (Some(a), Some(b)) => Some(
            Ok(DepositQuote { amount_a: in_a, amount_b: in_b, reserve_a: a, reserve_b: b }),
        ),
        _ => None,
    }
}

/// Decides a deposit against the given reserves without touching any state.
#[verifier::when_used_as_spec(spec_quote_deposit)]
pub fn quote_deposit(
    reserve_a: i128,
    reserve_b: i128,
    desired_a: i128,
    min_a: i128,
    desired_b: i128,
    min_b: i128,
) -> (r: Option<Result<DepositQuote, Error>>)
    ensures
        r == spec_quote_deposit(reserve_a, reserve_b, desired_a, min_a, desired_b, min_b),
{
    if reserve_a == 0 {
        if desired_a <= 1 || desired_b <= 1 {
            return Some(Err(Error::InvalidAmount));
        }
        return Some(
            Ok(
                DepositQuote {
                    amount_a: desired_a,
                    amount_b: desired_b,
                    reserve_a: desired_a,
                    reserve_b: desired_b,
                },
            ),
        );
    }
    let amount_b: i128 = match mul_div(reserve_b, desired_a, reserve_a) {
        None => { return None; },
        Some(v) => v,
    };
    if amount_b <= desired_b {
        if amount_b < min_b {
            return Some(Err(Error::InvalidAmount));
        }
        grow(reserve_a, reserve_b, desired_a, amount_b)
    } else {
        let amount_a: i128 = match mul_div(reserve_a, desired_b, reserve_b) {
            None => { return None; },
            Some(v) => v,
        };
        if amount_a > desired_a || amount_a < min_a {
            return Some(Err(Error::InvalidAmount));
        }
        grow(reserve_a, reserve_b, amount_a, desired_b)
    }
}

/// The constant-product rule with the fee kept by the pool: when a funded
/// pool takes in at least `amount` and pays out what [`amount_out`] computes
/// for it, the payout is less than the output reserve and the product of the
/// two reserves does not fall.
pub proof fn lemma_swap_keeps_product(
    reserve_in: i128,
    reserve_out: i128,
    amount: i128,
    delivered: int,
)
    requires
        reserve_in > 0,
        reserve_out > 0,
        amount > 0,
        delivered >= amount,
        spec_amount_out(reserve_in, reserve_out, amount).is_some(),
    ensures
        0 <= spec_amount_out(reserve_in, reserve_out, amount).unwrap() < reserve_out,
        (reserve_in + delivered) * (reserve_out - spec_amount_out(
            reserve_in,
            reserve_out,
            amount,
        ).unwrap()) >= reserve_in * reserve_out,
{
    let f: int = amount * 997 / 1000;
    assert(0 <= f <= amount);
    assert(spec_amount_in_with_fee(amount) == f);
    let d: int = reserve_in + f;
    let p: int = reserve_out * f;
    assert(p >= 0) by (nonlinear_arith)
        requires
            p == reserve_out * f,
            reserve_out > 0,
            f >= 0,
    ;
    let out: int = p / d;
    assert(spec_amount_out(reserve_in, reserve_out, amount).unwrap() == out);
    assert(out >= 0 && d * out <= p) by (nonlinear_arith)
        requires
            p >= 0,
            d > 0,
            out == p / d,
    ;
    assert(out < reserve_out) by (nonlinear_arith)
        requires
            d * out <= p,
            p == reserve_out * f,
            d == reserve_in + f,
            reserve_in > 0,
            reserve_out > 0,
            f >= 0,
            out >= 0,
    ;
    assert((reserve_in + delivered) * (reserve_out - out) >= reserve_in * reserve_out)
        by (nonlinear_arith)
        requires
            d * out <= p,
            p == reserve_out * f,
            d == reserve_in + f,
            delivered >= f,
            reserve_in > 0,
            f >= 0,
            0 <= out < reserve_out,
    ;
}

} // verus!
