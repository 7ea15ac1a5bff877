use vstd::prelude::*;

verus! {

/// The number of atomics in one whole unit of a [`Decimal`].
pub const DECIMAL_FRACTIONAL: u128 = 1_000_000_000_000_000_000;

/// An amount of one denomination.
#[derive(Clone, Debug, PartialEq, Eq)]
pub struct Coin {
    pub denom: String,
    pub amount: u128,
}

/// A non-negative fixed-point number with 18 fractional digits, held as its
/// count of atomics (units of 10^-18).
#[derive(Clone, Copy, Debug, PartialEq, Eq, Structural)]
pub struct Decimal {
    pub atomics: u128,
}

impl Coin {
    /// A coin of `amount` units of `denom`.
    pub fn new(amount: u128, denom: &str) -> (r: Coin)
        ensures
            r.amount == amount,
            r.denom@ == denom@,
    {
        Coin { denom: String::from_str(denom), amount }
    }

    /// A copy of this coin, field for field.
    pub fn duplicate(&self) -> (r: Coin)
        ensures
            r == *self,
    {
        Coin { denom: self.denom.clone(), amount: self.amount }
    }
}

impl Decimal {
    /// Whether this decimal lies in `[0, 1]`.
    pub open spec fn is_fraction(self) -> bool {
        self.atomics <= DECIMAL_FRACTIONAL
    }

    /// `x` percent.
    pub fn percent(x: u64) -> (r: Decimal)
        ensures
            r.atomics == x as int * 10_000_000_000_000_000,
    {
        Decimal { atomics: (x as u128) * 10_000_000_000_000_000 }
    }
}

/// `amount` scaled by a decimal of `atomics` atomics, rounded down.
pub open spec fn scaled(amount: u128, atomics: u128) -> int {
    (amount as int * atomics as int) / (DECIMAL_FRACTIONAL as int)
}

/// Relies on cosmwasm_std's `Uint128 * Decimal`, which returns the product of
/// the amount and the decimal rounded down (`multiply_ratio` by the atomics
/// over 10^18), and panics only where that product exceeds `u128::MAX`.
#[verifier::external_body]
pub(crate) fn scale_amount(amount: u128, atomics: u128) -> (r: u128)
    requires
        scaled(amount, atomics) <= u128::MAX,
    ensures
        r == scaled(amount, atomics),
{
    let product = cosmwasm_std::Uint128::new(amount) * cosmwasm_std::Decimal::new(
        cosmwasm_std::Uint128::new(atomics),
    );
    product.u128()
}

} // verus!
