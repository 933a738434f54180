//! The six faces of the die.
use vstd::prelude::*;
use crate::text::{decimal_digits, digit_char, digit_str};

verus! {

/// One roll of a six-sided die.
#[derive(Clone, Copy, Debug, PartialEq, Eq, Structural)]
pub enum Dice {
    One,
    Two,
    Three,
    Four,
    Five,
    Six,
}

/// The face of the die that shows `value`, for `1 <= value <= 6`.
pub open spec fn dice_of(value: int) -> Dice {
    if value == 1 {
        Dice::One
    } else if value == 2 {
        Dice::Two
    } else if value == 3 {
        Dice::Three
    } else if value == 4 {
        Dice::Four
    } else if value == 5 {
        Dice::Five
    } else {
        Dice::Six
    }
}

impl Dice {
    /// The number of pips on this face.
    pub open spec fn spec_value(self) -> nat {
        match self {
            Dice::One => 1,
            Dice::Two => 2,
            Dice::Three => 3,
            Dice::Four => 4,
            Dice::Five => 5,
            Dice::Six => 6,
        }
    }

    /// The number of pips on this face.
    pub fn value(&self) -> (v: usize)
        ensures
            v == self.spec_value(),
            1 <= v <= 6,
    {
        match self {
            Dice::One => 1,
            Dice::Two => 2,
            Dice::Three => 3,
            Dice::Four => 4,
            Dice::Five => 5,
            Dice::Six => 6,
        }
    }

    /// The face that shows `value`; a value outside `1..=6` is no face of the die.
    pub fn from(value: i32) -> (d: Dice)
        requires
            1 <= value <= 6,
        ensures
            d.spec_value() == value,
            d == dice_of(value as int),
    {
        if value == 1 {
            Dice::One
        } else if value == 2 {
            Dice::Two
        } else if value == 3 {
            Dice::Three
        } else if value == 4 {
            Dice::Four
        } else if value == 5 {
            Dice::Five
        } else {
            Dice::Six
        }
    }

    /// The face that shows `value`, as `Dice::from`, for an unsigned value.
    pub fn from_usize(value: usize) -> (d: Dice)
        requires
            1 <= value <= 6,
        ensures
            d.spec_value() == value,
            d == dice_of(value as int),
    {
        if value == 1 {
            Dice::One
        } else if value == 2 {
            Dice::Two
        } else if value == 3 {
            Dice::Three
        } else if value == 4 {
            Dice::Four
        } else if value == 5 {
            Dice::Five
        } else {
            Dice::Six
        }
    }

    /// The face that shows `value`, or `None` when no face shows it.
    pub fn try_from_value(value: i32) -> (d: Option<Dice>)
        ensures
            d is Some <==> 1 <= value <= 6,
            d matches Some(f) ==> f.spec_value() == value,
    {
        if 1 <= value && value <= 6 {
            Some(Dice::from(value))
        } else {
            None
        }
    }

    /// Whether the face shows an odd number of pips.
    pub fn is_odd(&self) -> (b: bool)
        ensures
            b == (self.spec_value() % 2 == 1),
    {
        let value: usize = self.value();
        value % 2 == 1
    }

    /// The face written as its number, `"1"` to `"6"`.
    pub fn to_string(&self) -> (s: String)
        ensures
            s@ == decimal_digits(self.spec_value()),
            s@ == seq![digit_char(self.spec_value())],
    {
        String::from_str(digit_str(self.value()))
    }
}

impl From<&Dice> for usize {
    fn from(d: &Dice) -> (v: usize) {
        d.value()
    }
}

impl vstd::std_specs::convert::FromSpecImpl<&Dice> for usize {
    open spec fn obeys_from_spec() -> bool {
        true
    }

    open spec fn from_spec(d: &Dice) -> usize {
        d.spec_value() as usize
    }
}

/// Reading a face back gives the value it was made from.
pub proof fn lemma_dice_value_round_trip(value: int)
    requires
        1 <= value <= 6,
    ensures
        dice_of(value).spec_value() == value,
{
}

/// Making a face from its own value gives that face back.
pub proof fn lemma_dice_of_value(d: Dice)
    ensures
        dice_of(d.spec_value() as int) == d,
        1 <= d.spec_value() <= 6,
{
}

} // verus!
