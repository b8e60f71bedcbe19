use vstd::prelude::*;

verus! {

/// One of the four compass directions the snake can travel.
#[derive(PartialEq, Eq, Structural, Clone, Copy, Debug)]
pub enum Direction {
    Up,
    Down,
    Left,
    Right,
}

impl Direction {
    /// The 180-degree reversal of this direction.
    pub open spec fn opposite(self) -> Direction {
        match self {
            Direction::Up => Direction::Down,
            Direction::Down => Direction::Up,
            Direction::Left => Direction::Right,
            Direction::Right => Direction::Left,
        }
    }
}

/// A requested change from `dir1` to `dir2` is allowed exactly when `dir2`
/// is not the 180-degree reversal of `dir1`; equal directions pass.
pub fn check_directions(dir1: &Direction, dir2: Direction) -> (ok: bool)
    ensures
        ok == (dir2 != dir1.opposite()),
{
    if (matches!(dir1, Direction::Down) && matches!(dir2, Direction::Up))
        || (matches!(dir1, Direction::Up) && matches!(dir2, Direction::Down))
        || (matches!(dir1, Direction::Left) && matches!(dir2, Direction::Right))
        || (matches!(dir1, Direction::Right) && matches!(dir2, Direction::Left))
    {
        return false;
    }
    true
}

} // verus!
