//! The direction a crossover points in.

use vstd::prelude::*;

verus! {

#[derive(Clone, Copy, Debug, PartialEq, Eq, Structural)]
pub enum Direction {
    /// The fast average crossed above the slow one: open a long position.
    Long,
    /// The fast average crossed below the slow one: open a short position.
    Short,
    /// Close the position.
    Exit,
}

impl Direction {
    /// The words shown to the person who reads the alert.
    pub open spec fn spec_label(self) -> Seq<char> {
        match self {
            Direction::Long => "多头开仓"@,
            Direction::Short => "空头开仓"@,
            Direction::Exit => "平仓"@,
        }
    }

    pub fn as_str(&self) -> (r: &'static str)
        ensures
            r@ == self.spec_label(),
    {
        match self {
            Direction::Long => "多头开仓",
            Direction::Short => "空头开仓",
            Direction::Exit => "平仓",
        }
    }

    /// Whether the direction opens a position.
    pub fn is_entry(&self) -> (r: bool)
        ensures
            r == (*self == Direction::Long || *self == Direction::Short),
    {
        match self {
            Direction::Long | Direction::Short => true,
            Direction::Exit => false,
        }
    }
}

} // verus!
