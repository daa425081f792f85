use crate::errors::ClientError;
use crate::math::{
    full_mul, mul_floor, mul_floor_spec, u256_mul_ratio, Decimal, IntoU64, DECIMAL_FRACTIONAL,
};
use crate::tx::{Coin, Fee};
use vstd::prelude::*;

verus! {

/// A character that may stand in a denomination.
pub open spec fn denom_char(c: char) -> bool {
    ('a' <= c && c <= 'z') || ('A' <= c && c <= 'Z') || ('0' <= c && c <= '9') || c == '/'
}

/// A denomination that cosmrs accepts: ASCII letters, digits and `/`.
pub open spec fn denom_accepted(denom: Seq<char>) -> bool {
    forall|i: int| 0 <= i < denom.len() ==> #[trigger] denom_char(denom[i])
}

/// Relies on cosmrs's `Denom::from_str`, which accepts exactly the strings
/// made of ASCII letters, digits and `/`.
#[verifier::external_body]
fn parse_denom(denom: &str) -> (r: bool)
    ensures
        r == denom_accepted(denom@),
{
    denom.parse::<cosmrs::Denom>().is_ok()
}

/// The fee amount for an estimate: the exact product
/// `gas_price * gas_adjustment * gas_used` rounded down, plus one unit, so that
/// the fee is always above the exact product; `None` when it does not fit 128 bits.
pub open spec fn fee_amount_spec(gas_used: u64, gas_price: Decimal, gas_adjustment: Decimal) -> Option<
    u128,
> {
    let total = (gas_used as int * gas_price.atomics as int * gas_adjustment.atomics as int) / (
    DECIMAL_FRACTIONAL as int * DECIMAL_FRACTIONAL as int);
    if total + 1 <= u128::MAX {
        Some((total + 1) as u128)
    } else {
        None
    }
}

/// The gas limit for an estimate: `floor(gas_used * gas_adjustment) - 1`, or
/// `None` when that is negative or does not fit 64 bits.
pub open spec fn gas_limit_spec(gas_used: u64, gas_adjustment: Decimal) -> Option<u64> {
    let scaled = mul_floor_spec(gas_used as int, gas_adjustment.atomics as int);
    if 1 <= scaled && scaled - 1 <= u64::MAX {
        Some((scaled - 1) as u64)
    } else {
        None
    }
}

/// `r` is what deriving a fee from `gas_used` gives: an error for a denomination
/// that cosmrs refuses, an error when an amount is out of range, and otherwise
/// one coin of `gas_denom` with the biased amount and gas limit.
pub open spec fn fee_outcome(
    r: Result<Fee, ClientError>,
    gas_used: u64,
    gas_price: Decimal,
    gas_adjustment: Decimal,
    gas_denom: Seq<char>,
) -> bool {
    if !denom_accepted(gas_denom) {
        r == Err::<Fee, ClientError>(ClientError::InvalidDenom)
    } else {
        match (fee_amount_spec(gas_used, gas_price, gas_adjustment), gas_limit_spec(gas_used, gas_adjustment)) {
            (Some(amount), Some(gas_limit)) => r matches Ok(fee) && {
                &&& fee.amount@.len() == 1
                &&& fee.amount@[0].denom@ == gas_denom
                &&& fee.amount@[0].amount == amount
                &&& fee.gas_limit == gas_limit
            },
            _ => r == Err::<Fee, ClientError>(ClientError::FeeOutOfRange),
        }
    }
}

/// The fee derived from a gas estimate, paid in `gas_denom`.
pub fn derive_fee(gas_used: u64, gas_price: Decimal, gas_adjustment: Decimal, gas_denom: &str) -> (r:
    Result<Fee, ClientError>)
    ensures
        fee_outcome(r, gas_used, gas_price, gas_adjustment, gas_denom@),
{
    if !parse_denom(gas_denom) {
        return Err(ClientError::InvalidDenom);
    }
    let (hi, lo) = full_mul(gas_price.atomics, gas_adjustment.atomics);
    proof {
        let g = gas_used as int;
        let p = gas_price.atomics as int;
        let a = gas_adjustment.atomics as int;
        assert(p * a * g == g * p * a) by (nonlinear_arith);
    }
    let total = match u256_mul_ratio(hi, lo, gas_used as u128, DECIMAL_FRACTIONAL * DECIMAL_FRACTIONAL) {
        Some(t) => t,
        None => {
            return Err(ClientError::FeeOutOfRange);
        },
    };
    if total == u128::MAX {
        return Err(ClientError::FeeOutOfRange);
    }
    let scaled = match mul_floor(gas_used as u128, gas_adjustment) {
        Some(s) => s,
        None => {
            proof {
                assert(mul_floor_spec(gas_used as int, gas_adjustment.atomics as int) > u128::MAX);
            }
            return Err(ClientError::FeeOutOfRange);
        },
    };
    if scaled == 0 {
        return Err(ClientError::FeeOutOfRange);
    }
    let gas_limit = match (scaled - 1).as_u64() {
        Some(g) => g,
        None => {
            return Err(ClientError::FeeOutOfRange);
        },
    };
    let coin = Coin { denom: gas_denom.to_string(), amount: total + 1 };
    Ok(Fee { amount: vec![coin], gas_limit })
}

} // verus!
