//! The ten decimal digits as a closed enumeration.

use vstd::prelude::*;

verus! {

/// A decimal digit. A font lookup takes a `Digit`, so a value outside
/// zero to nine cannot reach the table.
#[derive(Clone, Copy, Debug, PartialEq, Eq, Structural)]
pub enum Digit {
    Zero,
    One,
    Two,
    Three,
    Four,
    Five,
    Six,
    Seven,
    Eight,
    Nine,
}

impl Digit {
    /// The number that the digit stands for: its place in the enumeration.
    pub open spec fn ordinal(self) -> nat {
        match self {
            Digit::Zero => 0,
            Digit::One => 1,
            Digit::Two => 2,
            Digit::Three => 3,
            Digit::Four => 4,
            Digit::Five => 5,
            Digit::Six => 6,
            Digit::Seven => 7,
            Digit::Eight => 8,
            Digit::Nine => 9,
        }
    }

    /// The last decimal digit of `n`.
    pub open spec fn of(n: nat) -> Digit {
        let r = n % 10;
        if r == 0 {
            Digit::Zero
        } else if r == 1 {
            Digit::One
        } else if r == 2 {
            Digit::Two
        } else if r == 3 {
            Digit::Three
        } else if r == 4 {
            Digit::Four
        } else if r == 5 {
            Digit::Five
        } else if r == 6 {
            Digit::Six
        } else if r == 7 {
            Digit::Seven
        } else if r == 8 {
            Digit::Eight
        } else {
            Digit::Nine
        }
    }

    /// The digit's number, zero to nine.
    pub fn value(self) -> (v: u8)
        ensures
            v == self.ordinal(),
            v < 10,
    {
        match self {
            Digit::Zero => 0,
            Digit::One => 1,
            Digit::Two => 2,
            Digit::Three => 3,
            Digit::Four => 4,
            Digit::Five => 5,
            Digit::Six => 6,
            Digit::Seven => 7,
            Digit::Eight => 8,
            Digit::Nine => 9,
        }
    }

    /// The last decimal digit of `n`: every integer is reduced modulo ten,
    /// none is rejected.
    pub fn from_value(n: u8) -> (d: Digit)
        ensures
            d == Digit::of(n as nat),
            d.ordinal() == n % 10,
    {
        let r: u8 = n % 10;
        if r == 0 {
            Digit::Zero
        } else if r == 1 {
            Digit::One
        } else if r == 2 {
            Digit::Two
        } else if r == 3 {
            Digit::Three
        } else if r == 4 {
            Digit::Four
        } else if r == 5 {
            Digit::Five
        } else if r == 6 {
            Digit::Six
        } else if r == 7 {
            Digit::Seven
        } else if r == 8 {
            Digit::Eight
        } else {
            Digit::Nine
        }
    }

    /// `of` is the digit whose number is `n` modulo ten.
    pub proof fn lemma_of_ordinal(n: nat)
        ensures
            Digit::of(n).ordinal() == n % 10,
            Digit::of(n) == Digit::of(n % 10),
    {
    }

    /// Going from a digit to its number and back gives the digit again.
    pub proof fn lemma_ordinal_of(d: Digit)
        ensures
            d.ordinal() < 10,
            Digit::of(d.ordinal()) == d,
    {
    }
}

} // verus!
