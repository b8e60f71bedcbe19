use vstd::prelude::*;

use crate::direction::Direction;

verus! {

/// A single occupied cell of the arena, in grid units (not pixels).
#[derive(PartialEq, Eq, Structural, Clone, Copy, Debug)]
pub struct Segment {
    pub x: i64,
    pub y: i64,
}

impl Segment {
    /// The neighbouring cell one grid unit along `dir`; the vertical axis
    /// grows downward, so `Up` decreases `y`.
    pub open spec fn spec_step(self, dir: Direction) -> Segment {
        match dir {
            Direction::Up => Segment { x: self.x, y: (self.y - 1) as i64 },
            Direction::Down => Segment { x: self.x, y: (self.y + 1) as i64 },
            Direction::Left => Segment { x: (self.x - 1) as i64, y: self.y },
            Direction::Right => Segment { x: (self.x + 1) as i64, y: self.y },
        }
    }

    /// True when the cell lies inside the `[0, width) x [0, height)` arena.
    pub open spec fn in_bounds(self, width: u32, height: u32) -> bool {
        0 <= self.x < width && 0 <= self.y < height
    }

    /// Moves one grid unit along `dir`.
    pub fn step(self, dir: Direction) -> (r: Segment)
        requires
            i64::MIN < self.x < i64::MAX,
            i64::MIN < self.y < i64::MAX,
        ensures
            r == self.spec_step(dir),
    {
        match dir {
            Direction::Up => Segment { x: self.x, y: self.y - 1 },
            Direction::Down => Segment { x: self.x, y: self.y + 1 },
            Direction::Left => Segment { x: self.x - 1, y: self.y },
            Direction::Right => Segment { x: self.x + 1, y: self.y },
        }
    }
}

/// Whether the cell `c` occurs among `v`'s cells.
pub fn contains_segment(v: &Vec<Segment>, c: Segment) -> (r: bool)
    ensures
        r == v@.contains(c),
{
    let mut i: usize = 0;
    while i < v.len()
        invariant
            i <= v@.len(),
            forall|j: int| 0 <= j < i ==> v@[j] != c,
        decreases v@.len() - i,
    {
        if v[i] == c {
            proof {
                assert(v@[i as int] == c);
            }
            return true;
        }
        i = i + 1;
    }
    false
}

} // verus!
