use vstd::prelude::*;

use crate::segment::Segment;

verus! {

/// The head sits on some other segment of the body.
pub open spec fn hits_self(body: Seq<Segment>) -> bool {
    exists|i: int| 1 <= i < body.len() && #[trigger] body[i] == body[0]
}

/// A body has collided when its head left the arena or landed on its own
/// tail; either alone ends the game.
pub open spec fn spec_collision(body: Seq<Segment>, width: u32, height: u32) -> bool {
    !body[0].in_bounds(width, height) || hits_self(body)
}

/// CollisionDetector: a pure check of the body against the arena bounds,
/// run every tick right after the head has advanced.
pub fn detect_collision(segments: &Vec<Segment>, width: u32, height: u32) -> (r: bool)
    requires
        segments@.len() >= 1,
    ensures
        r == spec_collision(segments@, width, height),
{
    let head = segments[0];
    if head.x < 0 || head.y < 0 || head.x >= width as i64 || head.y >= height as i64 {
        return true;
    }
    let mut i: usize = 1;
    while i < segments.len()
        invariant
            1 <= i <= segments@.len(),
            forall|j: int| 1 <= j < i ==> #[trigger] segments@[j] != segments@[0],
            head == segments@[0],
        decreases segments@.len() - i,
    {
        if segments[i] == head {
            return true;
        }
        i = i + 1;
    }
    false
}

} // verus!
