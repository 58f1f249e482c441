//! Orders of magnitude by which large quantities are shown: a quantity of
//! a thousand or more is shown in thousands, millions, billions or
//! trillions. The order follows from the whole part of the quantity alone.

use vstd::prelude::*;

verus! {

/// The unit in which a quantity is shown.
#[derive(Clone, Copy, Debug, PartialEq, Eq, Structural)]
pub enum Magnitude {
    /// Below a thousand: shown as it is.
    Units,
    /// From a thousand on: shown in thousands, with the suffix `K`.
    Thousands,
    /// From a million on: shown in millions, with the suffix `M`.
    Millions,
    /// From a billion on: shown in billions, with the suffix `B`.
    Billions,
    /// From a trillion on: shown in trillions, with the suffix `T`.
    Trillions,
}

/// A thousand.
pub const THOUSAND: u64 = 1_000;

/// A million.
pub const MILLION: u64 = 1_000_000;

/// A billion.
pub const BILLION: u64 = 1_000_000_000;

/// A trillion.
pub const TRILLION: u64 = 1_000_000_000_000;

impl Magnitude {
    /// What one unit of this magnitude is worth.
    pub open spec fn divisor_spec(self) -> u64 {
        match self {
            Magnitude::Units => 1,
            Magnitude::Thousands => THOUSAND,
            Magnitude::Millions => MILLION,
            Magnitude::Billions => BILLION,
            Magnitude::Trillions => TRILLION,
        }
    }

    /// The letter that follows a quantity shown in this magnitude.
    pub open spec fn suffix_spec(self) -> Seq<char> {
        match self {
            Magnitude::Units => ""@,
            Magnitude::Thousands => "K"@,
            Magnitude::Millions => "M"@,
            Magnitude::Billions => "B"@,
            Magnitude::Trillions => "T"@,
        }
    }

    /// What one unit of this magnitude is worth.
    pub fn divisor(self) -> (r: u64)
        ensures
            r == self.divisor_spec(),
    {
        match self {
            Magnitude::Units => 1,
            Magnitude::Thousands => THOUSAND,
            Magnitude::Millions => MILLION,
            Magnitude::Billions => BILLION,
            Magnitude::Trillions => TRILLION,
        }
    }

    /// The letter that follows a quantity shown in this magnitude.
    pub fn suffix(self) -> (r: &'static str)
        ensures
            r@ == self.suffix_spec(),
    {
        match self {
            Magnitude::Units => "",
            Magnitude::Thousands => "K",
            Magnitude::Millions => "M",
            Magnitude::Billions => "B",
            Magnitude::Trillions => "T",
        }
    }
}

/// The magnitude in which an amount of money is shown, given the whole part
/// of its absolute value.
pub open spec fn usd_magnitude_spec(whole: u128) -> Magnitude {
    if whole >= TRILLION {
        Magnitude::Trillions
    } else if whole >= BILLION {
        Magnitude::Billions
    } else if whole >= MILLION {
        Magnitude::Millions
    } else if whole >= THOUSAND {
        Magnitude::Thousands
    } else {
        Magnitude::Units
    }
}

/// The magnitude in which a supply of coins is shown, given its whole part:
/// as for money, but never in trillions.
pub open spec fn supply_magnitude_spec(whole: u128) -> Magnitude {
    if whole >= BILLION {
        Magnitude::Billions
    } else {
        usd_magnitude_spec(whole)
    }
}

/// Chooses the magnitude for an amount of money.
pub fn usd_magnitude(whole: u128) -> (r: Magnitude)
    ensures
        r == usd_magnitude_spec(whole),
{
    if whole >= TRILLION as u128 {
        Magnitude::Trillions
    } else if whole >= BILLION as u128 {
        Magnitude::Billions
    } else if whole >= MILLION as u128 {
        Magnitude::Millions
    } else if whole >= THOUSAND as u128 {
        Magnitude::Thousands
    } else {
        Magnitude::Units
    }
}

/// Chooses the magnitude for a supply of coins.
pub fn supply_magnitude(whole: u128) -> (r: Magnitude)
    ensures
        r == supply_magnitude_spec(whole),
{
    if whole >= BILLION as u128 {
        Magnitude::Billions
    } else {
        usd_magnitude(whole)
    }
}

/// A quantity shown in its magnitude has a whole part from one to below a
/// thousand, but for quantities below one and, for money, from a thousand
/// trillions on; and a larger quantity never gets a smaller magnitude.
pub proof fn lemma_magnitude_fits(whole: u128, larger: u128)
    requires
        whole <= larger,
    ensures
        usd_magnitude_spec(whole).divisor_spec() <= usd_magnitude_spec(larger).divisor_spec(),
        supply_magnitude_spec(whole).divisor_spec() <= supply_magnitude_spec(
            larger,
        ).divisor_spec(),
        1 <= whole ==> usd_magnitude_spec(whole).divisor_spec() <= whole,
        whole < 1000 * TRILLION ==> whole < 1000 * usd_magnitude_spec(whole).divisor_spec(),
        1 <= whole ==> supply_magnitude_spec(whole).divisor_spec() <= whole,
        whole < 1000 * BILLION ==> whole < 1000 * supply_magnitude_spec(whole).divisor_spec(),
{
}

} // verus!
