use vstd::prelude::*;

verus! {

/// Cardinal directions. Each one matches one of the eight user LEDs laid out
/// in a ring around the board; the declaration order is the LED order.
#[derive(Clone, Copy, Debug, PartialEq, Eq, Structural)]
pub enum Direction {
    North,
    Northeast,
    East,
    Southeast,
    South,
    Southwest,
    West,
    Northwest,
}

impl Direction {
    /// Index of the LED that displays this direction.
    pub open spec fn index_spec(self) -> int {
        match self {
            Direction::North => 0,
            Direction::Northeast => 1,
            Direction::East => 2,
            Direction::Southeast => 3,
            Direction::South => 4,
            Direction::Southwest => 5,
            Direction::West => 6,
            Direction::Northwest => 7,
        }
    }

    pub fn index(self) -> (i: usize)
        ensures
            i as int == self.index_spec(),
            i < 8,
    {
        match self {
            Direction::North => 0,
            Direction::Northeast => 1,
            Direction::East => 2,
            Direction::Southeast => 3,
            Direction::South => 4,
            Direction::Southwest => 5,
            Direction::West => 6,
            Direction::Northwest => 7,
        }
    }

    /// The label printed in the per-cycle diagnostic line
    /// `Direction: <label>`.
    pub open spec fn name_spec(self) -> Seq<char> {
        match self {
            Direction::North => "North"@,
            Direction::Northeast => "Northeast"@,
            Direction::East => "East"@,
            Direction::Southeast => "Southeast"@,
            Direction::South => "South"@,
            Direction::Southwest => "Southwest"@,
            Direction::West => "West"@,
            Direction::Northwest => "Northwest"@,
        }
    }

    pub fn name(self) -> (s: &'static str)
        ensures
            s@ == self.name_spec(),
    {
        match self {
            Direction::North => "North",
            Direction::Northeast => "Northeast",
            Direction::East => "East",
            Direction::Southeast => "Southeast",
            Direction::South => "South",
            Direction::Southwest => "Southwest",
            Direction::West => "West",
            Direction::Northwest => "Northwest",
        }
    }
}

} // verus!
