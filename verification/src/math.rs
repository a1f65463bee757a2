//! Amount arithmetic and amount formatting, as `cosmwasm_std` does them.

use vstd::prelude::*;

verus! {

/// The decimal digits of `n`, most significant first, without a sign or
/// leading zeros (`0` is written "0").
pub open spec fn decimal_digits(n: nat) -> Seq<char>
    decreases n,
{
    if n < 10 {
        seq![digit_char(n)]
    } else {
        decimal_digits(n / 10).push(digit_char(n % 10))
    }
}

/// The character of a single decimal digit.
pub open spec fn digit_char(d: nat) -> char {
    if d == 0 {
        '0'
    } else if d == 1 {
        '1'
    } else if d == 2 {
        '2'
    } else if d == 3 {
        '3'
    } else if d == 4 {
        '4'
    } else if d == 5 {
        '5'
    } else if d == 6 {
        '6'
    } else if d == 7 {
        '7'
    } else if d == 8 {
        '8'
    } else {
        '9'
    }
}

/// A fixed-point number with 18 fractional digits, held as its count of
/// atomic units (10^-18 each).
#[derive(Debug, Clone, Copy, PartialEq, Eq, Structural)]
pub struct Decimal {
    pub atomics: u128,
}

impl Decimal {
    /// The number of the given count of atomic units.
    pub fn new(atomics: u128) -> (r: Self)
        ensures
            r.atomics == atomics,
    {
        Decimal { atomics }
    }

    /// Zero.
    pub fn zero() -> (r: Self)
        ensures
            r.atomics == 0,
    {
        Decimal { atomics: 0 }
    }

    /// The count of atomic units.
    pub fn atomics(&self) -> (r: u128)
        ensures
            r == self.atomics,
    {
        self.atomics
    }

    /// The number written out in decimal notation.
    pub fn to_string(&self) -> (r: String)
        ensures
            r@ == decimal_text(self.atomics),
    {
        decimal_to_string(self.atomics)
    }
}

/// The last `places` decimal digits of `n`, most significant first, with
/// leading zeros where `n` has fewer digits.
pub open spec fn fixed_digits(n: nat, places: nat) -> Seq<char>
    decreases places,
{
    if places == 0 {
        Seq::empty()
    } else {
        fixed_digits(n / 10, (places - 1) as nat).push(digit_char(n % 10))
    }
}

/// The text without the zeros at its end.
pub open spec fn trim_zeros(s: Seq<char>) -> Seq<char>
    decreases s.len(),
{
    if s.len() > 0 && s.last() == '0' {
        trim_zeros(s.drop_last())
    } else {
        s
    }
}

/// A number of 18 fractional digits in decimal notation: the whole part;
/// then, unless the fraction is zero, a point and the 18 digits of the
/// fraction without the zeros at their end.
pub open spec fn decimal_text(atomics: u128) -> Seq<char> {
    let whole = (atomics / 1_000_000_000_000_000_000) as nat;
    let fraction = (atomics % 1_000_000_000_000_000_000) as nat;
    if fraction == 0 {
        decimal_digits(whole)
    } else {
        decimal_digits(whole) + seq!['.'] + trim_zeros(fixed_digits(fraction, 18))
    }
}

/// Calls `cosmwasm_std::Uint128::checked_add`, which adds the two 128-bit
/// values and reports an overflow instead of wrapping.
#[verifier::external_body]
pub(crate) fn uint128_checked_add(a: u128, b: u128) -> (r: Option<u128>)
    ensures
        a + b <= u128::MAX ==> r == Some((a + b) as u128),
        a + b > u128::MAX ==> r.is_none(),
{
    match cosmwasm_std::Uint128::new(a).checked_add(cosmwasm_std::Uint128::new(b)) {
        Ok(v) => Some(v.u128()),
        Err(_) => None,
    }
}

/// Calls `cosmwasm_std::Uint128::checked_mul`, which multiplies the two
/// 128-bit values and reports an overflow instead of wrapping.
#[verifier::external_body]
pub(crate) fn uint128_checked_mul(a: u128, b: u128) -> (r: Option<u128>)
    ensures
        a * b <= u128::MAX ==> r == Some((a * b) as u128),
        a * b > u128::MAX ==> r.is_none(),
{
    match cosmwasm_std::Uint128::new(a).checked_mul(cosmwasm_std::Uint128::new(b)) {
        Ok(v) => Some(v.u128()),
        Err(_) => None,
    }
}

/// Calls `cosmwasm_std::Uint128::checked_div`, the truncating quotient of the
/// two 128-bit values, which reports a zero divisor.
#[verifier::external_body]
pub(crate) fn uint128_checked_div(a: u128, b: u128) -> (r: Option<u128>)
    ensures
        b != 0 ==> r == Some((a / b) as u128),
        b == 0 ==> r.is_none(),
{
    match cosmwasm_std::Uint128::new(a).checked_div(cosmwasm_std::Uint128::new(b)) {
        Ok(v) => Some(v.u128()),
        Err(_) => None,
    }
}

/// Calls `to_string` on a `cosmwasm_std::Uint128`, which displays the value
/// as its decimal digits.
#[verifier::external_body]
pub(crate) fn uint128_to_string(value: u128) -> (r: String)
    ensures
        r@ == decimal_digits(value as nat),
{
    cosmwasm_std::Uint128::new(value).to_string()
}

/// Calls `to_string` on a `cosmwasm_std::Decimal` made of the given atomic
/// units, which displays the whole part and, unless the fraction is zero, a
/// point and the fraction's 18 digits without trailing zeros.
#[verifier::external_body]
pub(crate) fn decimal_to_string(atomics: u128) -> (r: String)
    ensures
        r@ == decimal_text(atomics),
{
    cosmwasm_std::Decimal::new(cosmwasm_std::Uint128::new(atomics)).to_string()
}

/// Calls `to_string` on a `cosmwasm_std::Coin`, which displays the amount's
/// decimal digits directly followed by the denomination.
#[verifier::external_body]
pub(crate) fn coin_to_string(amount: u128, denom: &str) -> (r: String)
    ensures
        r@ == decimal_digits(amount as nat) + denom@,
{
    cosmwasm_std::Coin::new(amount, denom).to_string()
}

} // verus!
