use vstd::prelude::*;

verus! {

/// Number of atomic units in one whole `Decimal` (18 fractional digits).
pub const DECIMAL_FRACTIONAL: u128 = 1_000_000_000_000_000_000;

/// A non-negative fixed-point number with 18 fractional digits: the value is
/// `atomics / 10^18`.
#[derive(Clone, Copy, Debug, PartialEq, Eq, Structural)]
pub struct Decimal {
    pub atomics: u128,
}

/// `floor(a * b / 10^18)`: the product of two fixed-point quantities, or of an
/// integer and a fixed-point quantity, rounded down.
pub open spec fn mul_floor_spec(a: int, b: int) -> int {
    (a * b) / (DECIMAL_FRACTIONAL as int)
}

/// `Some(v)` when `v` fits in a `u128`.
pub open spec fn fits_u128(v: int) -> Option<u128> {
    if 0 <= v <= u128::MAX {
        Some(v as u128)
    } else {
        None
    }
}

impl Decimal {
    pub fn raw(atomics: u128) -> (r: Decimal)
        ensures
            r.atomics == atomics,
    {
        Decimal { atomics }
    }

    pub fn one() -> (r: Decimal)
        ensures
            r.atomics == DECIMAL_FRACTIONAL,
    {
        Decimal { atomics: DECIMAL_FRACTIONAL }
    }

    /// The product of two decimals, rounded down; `None` on overflow.
    pub fn checked_mul(&self, other: &Decimal) -> (r: Option<Decimal>)
        ensures
            r matches Some(d) ==> d.atomics as int == mul_floor_spec(
                self.atomics as int,
                other.atomics as int,
            ),
            r is None <==> mul_floor_spec(self.atomics as int, other.atomics as int)
                > u128::MAX,
    {
        match decimal_checked_mul(self.atomics, other.atomics) {
            Some(v) => Some(Decimal { atomics: v }),
            None => None,
        }
    }
}

/// Relies on `cosmwasm_std::Decimal::checked_mul`: the 256-bit product of the
/// two numerators divided by 10^18, or an error when it does not fit 128 bits.
#[verifier::external_body]
fn decimal_checked_mul(a: u128, b: u128) -> (r: Option<u128>)
    ensures
        r == fits_u128(mul_floor_spec(a as int, b as int)),
{
    cosmwasm_std::Decimal::raw(a).checked_mul(cosmwasm_std::Decimal::raw(b)).ok().map(
        |d| d.atomics().u128(),
    )
}

/// Relies on `cosmwasm_std::Uint128::checked_mul_floor` with a `Decimal`:
/// the 256-bit product divided by 10^18, or an error when it does not fit 128 bits.
#[verifier::external_body]
fn uint_checked_mul_floor(u: u128, d: u128) -> (r: Option<u128>)
    ensures
        r == fits_u128(mul_floor_spec(u as int, d as int)),
{
    cosmwasm_std::Uint128::new(u).checked_mul_floor(cosmwasm_std::Decimal::raw(d)).ok().map(
        |v| v.u128(),
    )
}

/// The value of a 256-bit integer given by its high and low 128-bit halves.
pub open spec fn u256_value(hi: u128, lo: u128) -> int {
    hi as int * (u128::MAX as int + 1) + lo as int
}

/// Relies on `cosmwasm_std::Uint128::full_mul`: the exact 256-bit product,
/// split into its big-endian halves.
#[verifier::external_body]
pub(crate) fn full_mul(a: u128, b: u128) -> (r: (u128, u128))
    ensures
        u256_value(r.0, r.1) == a as int * b as int,
{
    let bytes = cosmwasm_std::Uint128::new(a).full_mul(b).to_be_bytes();
    let (hi, lo) = bytes.split_at(16);
    (u128::from_be_bytes(hi.try_into().unwrap()), u128::from_be_bytes(lo.try_into().unwrap()))
}

/// Relies on `cosmwasm_std::Uint256::checked_multiply_ratio`: the quotient
/// `value * numerator / denominator`, rounded down and computed over 512 bits;
/// an error for a zero denominator or a quotient beyond 256 bits.
#[verifier::external_body]
pub(crate) fn u256_mul_ratio(hi: u128, lo: u128, numerator: u128, denominator: u128) -> (r: Option<
    u128,
>)
    requires
        denominator > 0,
    ensures
        r == fits_u128(u256_value(hi, lo) * numerator as int / denominator as int),
{
    let bytes: [u8; 32] = [hi.to_be_bytes(), lo.to_be_bytes()].concat().try_into().unwrap();
    let ratio = cosmwasm_std::Uint256::from_be_bytes(bytes).checked_multiply_ratio(numerator, denominator);
    ratio.ok().and_then(|v| cosmwasm_std::Uint128::try_from(v).ok()).map(|v| v.u128())
}

/// An integer quantity multiplied by a decimal, rounded down; `None` on overflow.
pub fn mul_floor(u: u128, d: Decimal) -> (r: Option<u128>)
    ensures
        r == fits_u128(mul_floor_spec(u as int, d.atomics as int)),
{
    uint_checked_mul_floor(u, d.atomics)
}

/// Narrowing to `u64`.
pub trait IntoU64 {
    /// The integer that the value stands for.
    spec fn value(&self) -> int;

    /// The value as a `u64`; `None` when it does not fit.
    fn as_u64(&self) -> (r: Option<u64>)
        ensures
            r matches Some(v) ==> v as int == self.value(),
            r is None <==> self.value() > u64::MAX;
}

impl IntoU64 for u128 {
    open spec fn value(&self) -> int {
        *self as int
    }

    fn as_u64(&self) -> (r: Option<u64>) {
        if *self <= u64::MAX as u128 {
            Some(*self as u64)
        } else {
            None
        }
    }
}

} // verus!
