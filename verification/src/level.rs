use vstd::prelude::*;

verus! {

/// `Level` is the compression intensity, from `Zero` (fastest, largest
/// output) to `TwentyOne` (slowest, smallest output). Each codec maps a
/// `Level` onto its own native scale; a codec with a narrower scale
/// collapses the upper levels monotonically onto its best setting.
#[derive(Debug, Clone, Copy, PartialEq, Eq, Structural)]
pub enum Level {
    Zero,
    One,
    Two,
    Three,
    Four,
    Five,
    Six,
    Seven,
    Eight,
    Nine,
    Ten,
    Eleven,
    Twelve,
    Thirteen,
    Fourteen,
    Fifteen,
    Sixteen,
    Seventeen,
    Eighteen,
    Nineteen,
    Twenty,
    TwentyOne,
}

/// The ordinal of a level: `Zero` is 0, `TwentyOne` is 21.
pub open spec fn spec_level_ordinal(level: Level) -> int {
    match level {
        Level::Zero => 0,
        Level::One => 1,
        Level::Two => 2,
        Level::Three => 3,
        Level::Four => 4,
        Level::Five => 5,
        Level::Six => 6,
        Level::Seven => 7,
        Level::Eight => 8,
        Level::Nine => 9,
        Level::Ten => 10,
        Level::Eleven => 11,
        Level::Twelve => 12,
        Level::Thirteen => 13,
        Level::Fourteen => 14,
        Level::Fifteen => 15,
        Level::Sixteen => 16,
        Level::Seventeen => 17,
        Level::Eighteen => 18,
        Level::Nineteen => 19,
        Level::Twenty => 20,
        Level::TwentyOne => 21,
    }
}

impl vstd::std_specs::convert::FromSpecImpl<Level> for u32 {
    open spec fn obeys_from_spec() -> bool {
        true
    }

    open spec fn from_spec(level: Level) -> u32 {
        spec_level_ordinal(level) as u32
    }
}

impl From<Level> for u32 {
    fn from(level: Level) -> (r: u32)
        ensures
            r == spec_level_ordinal(level),
    {
        match level {
            Level::Zero => 0,
            Level::One => 1,
            Level::Two => 2,
            Level::Three => 3,
            Level::Four => 4,
            Level::Five => 5,
            Level::Six => 6,
            Level::Seven => 7,
            Level::Eight => 8,
            Level::Nine => 9,
            Level::Ten => 10,
            Level::Eleven => 11,
            Level::Twelve => 12,
            Level::Thirteen => 13,
            Level::Fourteen => 14,
            Level::Fifteen => 15,
            Level::Sixteen => 16,
            Level::Seventeen => 17,
            Level::Eighteen => 18,
            Level::Nineteen => 19,
            Level::Twenty => 20,
            Level::TwentyOne => 21,
        }
    }
}

impl vstd::std_specs::convert::FromSpecImpl<Level> for i32 {
    open spec fn obeys_from_spec() -> bool {
        true
    }

    open spec fn from_spec(level: Level) -> i32 {
        spec_level_ordinal(level) as i32
    }
}

impl From<Level> for i32 {
    fn from(level: Level) -> (r: i32)
        ensures
            r == spec_level_ordinal(level),
    {
        match level {
            Level::Zero => 0,
            Level::One => 1,
            Level::Two => 2,
            Level::Three => 3,
            Level::Four => 4,
            Level::Five => 5,
            Level::Six => 6,
            Level::Seven => 7,
            Level::Eight => 8,
            Level::Nine => 9,
            Level::Ten => 10,
            Level::Eleven => 11,
            Level::Twelve => 12,
            Level::Thirteen => 13,
            Level::Fourteen => 14,
            Level::Fifteen => 15,
            Level::Sixteen => 16,
            Level::Seventeen => 17,
            Level::Eighteen => 18,
            Level::Nineteen => 19,
            Level::Twenty => 20,
            Level::TwentyOne => 21,
        }
    }
}

} // verus!
