//! Dice results, roll requests and roll targets.
use vstd::prelude::*;

verus! {

/// The result of a six-sided die.
#[derive(Clone, Copy, Debug, PartialEq, Eq, Structural)]
pub enum D6 {
    One,
    Two,
    Three,
    Four,
    Five,
    Six,
}

impl D6 {
    /// The number shown on the die.
    pub open spec fn spec_value(self) -> nat {
        match self {
            D6::One => 1,
            D6::Two => 2,
            D6::Three => 3,
            D6::Four => 4,
            D6::Five => 5,
            D6::Six => 6,
        }
    }

    /// The number shown on the die.
    pub fn value(self) -> (v: u8)
        ensures
            v == self.spec_value(),
            1 <= v <= 6,
    {
        match self {
            D6::One => 1,
            D6::Two => 2,
            D6::Three => 3,
            D6::Four => 4,
            D6::Five => 5,
            D6::Six => 6,
        }
    }
}

/// The result of a sixteen-sided die.
#[derive(Clone, Copy, Debug, PartialEq, Eq, Structural)]
pub enum D16 {
    One,
    Two,
    Three,
    Four,
    Five,
    Six,
    Seven,
    Eight,
    Nine,
    Ten,
    Eleven,
    Twelve,
    Thirteen,
    Fourteen,
    Fifteen,
    Sixteen,
}

impl D16 {
    /// The number shown on the die.
    pub open spec fn spec_value(self) -> nat {
        match self {
            D16::One => 1,
            D16::Two => 2,
            D16::Three => 3,
            D16::Four => 4,
            D16::Five => 5,
            D16::Six => 6,
            D16::Seven => 7,
            D16::Eight => 8,
            D16::Nine => 9,
            D16::Ten => 10,
            D16::Eleven => 11,
            D16::Twelve => 12,
            D16::Thirteen => 13,
            D16::Fourteen => 14,
            D16::Fifteen => 15,
            D16::Sixteen => 16,
        }
    }

    /// The number shown on the die.
    pub fn value(self) -> (v: u8)
        ensures
            v == self.spec_value(),
            1 <= v <= 16,
    {
        match self {
            D16::One => 1,
            D16::Two => 2,
            D16::Three => 3,
            D16::Four => 4,
            D16::Five => 5,
            D16::Six => 6,
            D16::Seven => 7,
            D16::Eight => 8,
            D16::Nine => 9,
            D16::Ten => 10,
            D16::Eleven => 11,
            D16::Twelve => 12,
            D16::Thirteen => 13,
            D16::Fourteen => 14,
            D16::Fifteen => 15,
            D16::Sixteen => 16,
        }
    }
}

/// The least result of a six-sided die that counts as a success.
#[derive(Clone, Copy, Debug, PartialEq, Eq, Structural)]
pub enum D6Target {
    TwoPlus,
    ThreePlus,
    FourPlus,
    FivePlus,
    SixPlus,
}

impl D6Target {
    /// The least die result that succeeds.
    pub open spec fn spec_min_roll(self) -> nat {
        match self {
            D6Target::TwoPlus => 2,
            D6Target::ThreePlus => 3,
            D6Target::FourPlus => 4,
            D6Target::FivePlus => 5,
            D6Target::SixPlus => 6,
        }
    }

    /// Whether `roll` meets this target.
    pub open spec fn spec_is_success(self, roll: D6) -> bool {
        roll.spec_value() >= self.spec_min_roll()
    }

    /// Whether `roll` meets this target.
    pub fn is_success(&self, roll: D6) -> (success: bool)
        ensures
            success == self.spec_is_success(roll),
    {
        let min: u8 = match self {
            D6Target::TwoPlus => 2,
            D6Target::ThreePlus => 3,
            D6Target::FourPlus => 4,
            D6Target::FivePlus => 5,
            D6Target::SixPlus => 6,
        };
        roll.value() >= min
    }
}

/// The kind of die that a procedure asks to be rolled.
#[derive(Clone, Copy, Debug, PartialEq, Eq, Structural)]
pub enum RequestedRoll {
    D6,
    D16,
}

/// A rolled die, handed to a procedure.
#[derive(Clone, Copy, Debug, PartialEq, Eq, Structural)]
pub enum RollResult {
    D6(D6),
    D16(D16),
}

} // verus!
