use crate::text::{decimal_digits, digit_char, u128_to_string};
use vstd::prelude::*;

verus! {

/// One with 18 fractional digits: the number of atomic units in the ratio 1.
pub const DECIMAL_FRACTIONAL: u128 = 1_000_000_000_000_000_000u128;

/// A non-negative fixed-point number with 18 fractional digits, held as its count of
/// atomic units: `atomics / 10^18` is the number it stands for.
#[derive(Clone, Copy, Debug, PartialEq, Eq, Structural)]
pub struct Decimal {
    pub atomics: u128,
}

/// The digits that write the fraction `frac / (10 * scale)`, from the first place after
/// the point up to the last one that is not zero; `scale` is a power of ten, and `frac`
/// is less than ten times `scale`.
pub open spec fn fraction_digits(frac: nat, scale: nat) -> Seq<char>
    decreases scale,
{
    if frac == 0 || scale == 0 {
        Seq::empty()
    } else {
        seq![digit_char(frac / scale)] + fraction_digits(frac % scale, scale / 10)
    }
}

/// The decimal of `atomics` atomic units as text: the whole part in base ten, and,
/// where the fractional part is not zero, a point and the fractional digits without
/// trailing zeros.
pub open spec fn decimal_text(atomics: u128) -> Seq<char> {
    let whole = (atomics / DECIMAL_FRACTIONAL) as nat;
    let frac = (atomics % DECIMAL_FRACTIONAL) as nat;
    if frac == 0 {
        decimal_digits(whole)
    } else {
        decimal_digits(whole) + seq!['.'] + fraction_digits(frac, 100_000_000_000_000_000)
    }
}

/// `amount` times the ratio of `atomics` atomic units, rounded down.
pub open spec fn mul_floor(amount: u128, atomics: u128) -> nat {
    (amount * atomics / (DECIMAL_FRACTIONAL as int)) as nat
}

/// Calls `Uint128 * Decimal` of cosmwasm_std, which multiplies in 256 bits, divides by
/// 10^18 rounding down, and panics where the quotient does not fit in 128 bits.
#[verifier::external_body]
fn uint128_mul_decimal(amount: u128, ratio: Decimal) -> (r: u128)
    requires
        mul_floor(amount, ratio.atomics) <= u128::MAX,
    ensures
        r == mul_floor(amount, ratio.atomics),
{
    (cosmwasm_std::Uint128::new(amount) * cosmwasm_std::Decimal::raw(ratio.atomics)).u128()
}

/// Calls `to_string` on a `Decimal` of cosmwasm_std with the same atomic units. Its
/// `Display` writes the whole part, `atomics / 10^18`, as an integer, and stops there
/// where the remainder is zero; else it writes a point and the remainder, padded with
/// zeros on the left to 18 digits and stripped of the zeros on its right.
#[verifier::external_body]
fn decimal_to_string(ratio: Decimal) -> (r: String)
    ensures
        r@ == decimal_text(ratio.atomics),
{
    cosmwasm_std::Decimal::raw(ratio.atomics).to_string()
}

/// A share of at most the whole never exceeds the amount it is taken of.
pub proof fn lemma_mul_floor_of_ratio(amount: u128, atomics: u128)
    requires
        atomics <= DECIMAL_FRACTIONAL,
    ensures
        mul_floor(amount, atomics) <= amount,
{
    assert(amount * atomics <= amount * (DECIMAL_FRACTIONAL as int)) by (nonlinear_arith)
        requires
            atomics <= DECIMAL_FRACTIONAL,
            0 <= amount,
    ;
    assert(amount * (DECIMAL_FRACTIONAL as int) / (DECIMAL_FRACTIONAL as int) == amount)
        by (nonlinear_arith)
        requires
            DECIMAL_FRACTIONAL > 0,
    ;
    assert(amount * atomics / (DECIMAL_FRACTIONAL as int) <= amount * (DECIMAL_FRACTIONAL as int)
        / (DECIMAL_FRACTIONAL as int)) by (nonlinear_arith)
        requires
            amount * atomics <= amount * (DECIMAL_FRACTIONAL as int),
            DECIMAL_FRACTIONAL > 0,
    ;
}

impl Decimal {
    /// The ratio 1.
    pub fn one() -> (r: Decimal)
        ensures
            r.atomics == DECIMAL_FRACTIONAL,
    {
        Decimal { atomics: DECIMAL_FRACTIONAL }
    }

    /// The ratio 0.
    pub fn zero() -> (r: Decimal)
        ensures
            r.atomics == 0,
    {
        Decimal { atomics: 0 }
    }

    /// `x` hundredths.
    pub fn percent(x: u64) -> (r: Decimal)
        ensures
            r.atomics == x * 10_000_000_000_000_000,
    {
        assert(x * 10_000_000_000_000_000 <= u128::MAX) by (nonlinear_arith)
            requires
                x <= u64::MAX,
        ;
        let wide: u128 = x as u128;
        Decimal { atomics: wide * 10_000_000_000_000_000u128 }
    }

    /// The decimal that counts `atomics` atomic units.
    pub fn raw(atomics: u128) -> (r: Decimal)
        ensures
            r.atomics == atomics,
    {
        Decimal { atomics }
    }

    /// Whether the ratio is at most 1.
    pub open spec fn is_ratio(self) -> bool {
        self.atomics <= DECIMAL_FRACTIONAL
    }

    /// Whether the number is greater than 1.
    pub fn exceeds_one(&self) -> (r: bool)
        ensures
            r == !self.is_ratio(),
    {
        self.atomics > DECIMAL_FRACTIONAL
    }

    /// `amount` times `self`, rounded down. The product must fit in 128 bits, as that
    /// of an amount and a ratio always does.
    pub fn of(&self, amount: u128) -> (r: u128)
        requires
            self.is_ratio() || mul_floor(amount, self.atomics) <= u128::MAX,
        ensures
            r == mul_floor(amount, self.atomics),
            self.is_ratio() ==> r <= amount,
    {
        proof {
            if self.is_ratio() {
                lemma_mul_floor_of_ratio(amount, self.atomics);
            }
        }
        uint128_mul_decimal(amount, *self)
    }

    /// The decimal as text.
    pub fn to_text(&self) -> (r: String)
        ensures
            r@ == decimal_text(self.atomics),
    {
        decimal_to_string(*self)
    }
}

/// One hundred, by which a ratio is scaled to a percentage.
pub const ONE_HUNDRED: u128 = 100;

/// Writes a ratio as a percentage, rounded down to a whole number.
pub fn to_percent(dec: Decimal) -> (r: String)
    ensures
        r@ == decimal_digits(mul_floor(ONE_HUNDRED, dec.atomics)),
{
    assert(mul_floor(ONE_HUNDRED, dec.atomics) <= u128::MAX) by {
        assert(100 * dec.atomics / 1_000_000_000_000_000_000 <= dec.atomics);
    }
    u128_to_string(uint128_mul_decimal(ONE_HUNDRED, dec))
}

} // verus!
