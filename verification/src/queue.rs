use vstd::prelude::*;

use crate::direction::Direction;
use crate::direction::check_directions;

verus! {

/// Most pending direction changes the queue keeps; a newer accepted entry
/// pushes the oldest one out once this many are buffered.
pub const MAX_BUFFER_SIZE: usize = 2;

/// Bounded FIFO of pending direction changes, oldest first. Entries are
/// validated when inserted: against the last queued entry, or against the
/// snake's current direction when the queue is empty.
pub struct InputQueue {
    pub entries: Vec<Direction>,
}

impl View for InputQueue {
    type V = Seq<Direction>;

    open spec fn view(&self) -> Seq<Direction> {
        self.entries@
    }
}

impl InputQueue {
    /// The queue never holds more than `MAX_BUFFER_SIZE` entries.
    pub open spec fn wf(&self) -> bool {
        self@.len() <= MAX_BUFFER_SIZE
    }

    /// The direction a new candidate is validated against: the last queued
    /// entry, or `current` when nothing is queued.
    pub open spec fn reference_dir(&self, current: Direction) -> Direction {
        if self@.len() == 0 {
            current
        } else {
            self@.last()
        }
    }

    /// What the queue holds after an enqueue attempt: a reversal of the
    /// reference direction is dropped; otherwise the candidate is appended
    /// and, past the cap, the oldest entry leaves.
    pub open spec fn spec_enqueue(&self, current: Direction, candidate: Direction) -> Seq<Direction> {
        if candidate == self.reference_dir(current).opposite() {
            self@
        } else if self@.len() < MAX_BUFFER_SIZE {
            self@.push(candidate)
        } else {
            self@.push(candidate).drop_first()
        }
    }

    pub fn new() -> (q: InputQueue)
        ensures
            q@ == Seq::<Direction>::empty(),
            q.wf(),
    {
        InputQueue { entries: Vec::new() }
    }

    /// How many direction changes are pending.
    pub fn len(&self) -> (n: usize)
        ensures
            n == self@.len(),
    {
        self.entries.len()
    }

    /// Buffers `candidate` unless it reverses the direction the snake will
    /// be facing when the entry is consumed; reports whether it was kept.
    pub fn try_enqueue(&mut self, current: Direction, candidate: Direction) -> (accepted: bool)
        requires
            old(self).wf(),
        ensures
            accepted == (candidate != old(self).reference_dir(current).opposite()),
            final(self)@ == old(self).spec_enqueue(current, candidate),
            final(self).wf(),
    {
        let reference: Direction = if self.entries.len() == 0 {
            current
        } else {
            self.entries[self.entries.len() - 1]
        };
        if !check_directions(&reference, candidate) {
            return false;
        }
        self.entries.push(candidate);
        if self.entries.len() > MAX_BUFFER_SIZE {
            self.entries.remove(0);
            proof {
                assert(self@ =~= old(self)@.push(candidate).drop_first());
            }
        }
        true
    }

    /// Pops and returns the oldest pending direction change, if any.
    pub fn dequeue_next(&mut self) -> (r: Option<Direction>)
        ensures
            old(self)@.len() == 0 ==> r is None && final(self)@ == old(self)@,
            old(self)@.len() > 0 ==> r == Some(old(self)@[0]) && final(self)@ == old(self)@.drop_first(),
            old(self).wf() ==> final(self).wf(),
    {
        if self.entries.len() == 0 {
            None
        } else {
            let d = self.entries.remove(0);
            proof {
                assert(self@ =~= old(self)@.drop_first());
            }
            Some(d)
        }
    }
}

} // verus!
