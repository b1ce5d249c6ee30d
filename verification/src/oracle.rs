use vstd::prelude::*;

use crate::errors::CustomError;
use crate::infinite_math::lemma_u64_mul_fits;

verus! {

/// A price and confidence pair normalized to six decimals, the numeric
/// contract the engine requires from the oracle collaborator.
#[derive(Clone, Copy, Debug, PartialEq, Eq, Structural)]
pub struct PythPriceInfo {
    /// Price scaled to a six-decimal exponent.
    pub price: u64,
    /// Confidence interval scaled the same way.
    pub conf: u64,
}

/// Ten to the `n`th power.
pub open spec fn spec_pow10(n: int) -> int
    decreases n,
{
    if n <= 0 {
        1
    } else {
        10 * spec_pow10(n - 1)
    }
}

/// Ten to the `n`th power, for exponents that fit in a u64.
fn pow10_u64(n: u64) -> (r: u64)
    requires
        n <= 19,
    ensures
        r == spec_pow10(n as int),
{
    let mut acc: u64 = 1;
    let mut i: u64 = 0;
    while i < n
        invariant
            0 <= i <= n <= 19,
            acc == spec_pow10(i as int),
        decreases n - i,
    {
        proof {
            reveal_with_fuel(spec_pow10, 21);
            assert(spec_pow10(18) == 1_000_000_000_000_000_000);
            lemma_pow10_increases(i as int, 18);
            assert(spec_pow10(i + 1) == 10 * spec_pow10(i as int));
        }
        acc = acc * 10;
        i += 1;
    }
    acc
}

/// Ten to any power is positive.
pub proof fn lemma_pow10_pos(a: int)
    ensures
        spec_pow10(a) >= 1,
    decreases a,
{
    if a > 0 {
        lemma_pow10_pos(a - 1);
    }
}

/// Ten to a larger power is at least ten to a smaller one.
pub proof fn lemma_pow10_increases(a: int, b: int)
    requires
        0 <= a <= b,
    ensures
        spec_pow10(a) <= spec_pow10(b),
        spec_pow10(a) >= 1,
    decreases b,
{
    lemma_pow10_pos(a);
    if a < b {
        lemma_pow10_increases(a, b - 1);
        lemma_pow10_pos(b - 1);
    }
}

/// Normalize a raw oracle quote to the engine's six-decimal scale.
/// A non-positive price is rejected outright; scaling that leaves u64
/// fails closed. Freshness is the caller's responsibility: the caller must
/// only hand in quotes within the staleness bound.
pub fn normalize_price_and_conf(raw_price: i64, exponent: i32, raw_conf: u64) -> (r: Result<
    PythPriceInfo,
    CustomError,
>)
    ensures
        raw_price <= 0 ==> r == Err::<PythPriceInfo, CustomError>(CustomError::InvalidOraclePrice),
        raw_price > 0 ==> ({
            let d = 6 - exponent as int;
            if d >= 0 {
                if d <= 19 && raw_price * spec_pow10(d) <= u64::MAX && raw_conf * spec_pow10(d)
                    <= u64::MAX {
                    r == Ok::<PythPriceInfo, CustomError>(
                        PythPriceInfo {
                            price: (raw_price as int * spec_pow10(d)) as u64,
                            conf: (raw_conf * spec_pow10(d)) as u64,
                        },
                    )
                } else {
                    r == Err::<PythPriceInfo, CustomError>(CustomError::MathOverflow)
                }
            } else {
                if -d <= 19 {
                    r == Ok::<PythPriceInfo, CustomError>(
                        PythPriceInfo {
                            price: (raw_price as int / spec_pow10(-d)) as u64,
                            conf: (raw_conf as int / spec_pow10(-d)) as u64,
                        },
                    )
                } else {
                    r == Err::<PythPriceInfo, CustomError>(CustomError::MathOverflow)
                }
            }
        }),
{
    if raw_price <= 0 {
        return Err(CustomError::InvalidOraclePrice);
    }
    let price: u64 = raw_price as u64;
    let diff: i64 = 6 - (exponent as i64);
    if diff >= 0 {
        if diff > 19 {
            return Err(CustomError::MathOverflow);
        }
        let factor: u64 = pow10_u64(diff as u64);
        proof {
            lemma_u64_mul_fits(price, factor);
            lemma_u64_mul_fits(raw_conf, factor);
        }
        let scaled_price: u128 = (price as u128) * (factor as u128);
        let scaled_conf: u128 = (raw_conf as u128) * (factor as u128);
        if scaled_price > u64::MAX as u128 || scaled_conf > u64::MAX as u128 {
            return Err(CustomError::MathOverflow);
        }
        Ok(PythPriceInfo { price: scaled_price as u64, conf: scaled_conf as u64 })
    } else {
        if diff < -19 {
            return Err(CustomError::MathOverflow);
        }
        let factor: u64 = pow10_u64((-diff) as u64);
        proof {
            lemma_pow10_increases(0, -diff as int);
        }
        Ok(PythPriceInfo { price: price / factor, conf: raw_conf / factor })
    }
}

/// The settlement price alone, normalized to six decimals.
pub fn normalize_price(raw_price: i64, exponent: i32) -> (r: Result<u64, CustomError>)
    ensures
        ({
            let full = normalize_result(raw_price, exponent);
            &&& full is Ok ==> r == Ok::<u64, CustomError>(full->Ok_0.price)
            &&& full is Err ==> r == Err::<u64, CustomError>(full->Err_0)
        }),
{
    match normalize_price_and_conf(raw_price, exponent, 0) {
        Ok(info) => Ok(info.price),
        Err(e) => Err(e),
    }
}

/// What `normalize_price_and_conf` returns for a zero confidence.
pub open spec fn normalize_result(raw_price: i64, exponent: i32) -> Result<
    PythPriceInfo,
    CustomError,
> {
    let d = 6 - exponent as int;
    if raw_price <= 0 {
        Err(CustomError::InvalidOraclePrice)
    } else if d >= 0 {
        if d <= 19 && raw_price * spec_pow10(d) <= u64::MAX {
            Ok(PythPriceInfo { price: (raw_price as int * spec_pow10(d)) as u64, conf: 0 })
        } else {
            Err(CustomError::MathOverflow)
        }
    } else {
        if -d <= 19 {
            Ok(
                PythPriceInfo {
                    price: (raw_price as int / spec_pow10(-d)) as u64,
                    conf: (0int / spec_pow10(-d)) as u64,
                },
            )
        } else {
            Err(CustomError::MathOverflow)
        }
    }
}

} // verus!
