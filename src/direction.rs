use vstd::prelude::*;

verus! {

/// A heading of the snake on the grid.
#[derive(Clone, Copy, PartialEq, Eq, Debug, Structural)]
pub enum Direction {
    Right,
    Left,
    Up,
    Down,
}

impl Direction {
    /// Column change of one step in this direction (columns grow to the right).
    pub open spec fn dx(self) -> int {
        match self {
            Direction::Right => 1,
            Direction::Left => -1,
            Direction::Up => 0,
            Direction::Down => 0,
        }
    }

    /// Row change of one step in this direction (rows grow downwards).
    pub open spec fn dy(self) -> int {
        match self {
            Direction::Right => 0,
            Direction::Left => 0,
            Direction::Up => -1,
            Direction::Down => 1,
        }
    }

    pub open spec fn opposite_spec(self) -> Direction {
        match self {
            Direction::Right => Direction::Left,
            Direction::Left => Direction::Right,
            Direction::Up => Direction::Down,
            Direction::Down => Direction::Up,
        }
    }

    /// The direction pointing the other way.
    pub fn opposite(&self) -> (r: Direction)
        ensures
            r == self.opposite_spec(),
    {
        match self {
            Direction::Right => Direction::Left,
            Direction::Left => Direction::Right,
            Direction::Up => Direction::Down,
            Direction::Down => Direction::Up,
        }
    }

    /// A snake heading `self` may turn to `next` unless `next` reverses it.
    pub open spec fn accepts_spec(self, next: Direction) -> bool {
        next != self.opposite_spec()
    }

    /// Whether a snake heading `self` may be steered towards `next`.
    pub fn accepts(&self, next: Direction) -> (r: bool)
        ensures
            r == self.accepts_spec(next),
    {
        next != self.opposite()
    }

    /// The heading after asking a snake heading `self` to turn to `next`:
    /// `next` when accepted, otherwise `self`.
    pub open spec fn steer_spec(self, next: Direction) -> Direction {
        if self.accepts_spec(next) {
            next
        } else {
            self
        }
    }

    pub fn steer(&self, next: Direction) -> (r: Direction)
        ensures
            r == self.steer_spec(next),
    {
        if self.accepts(next) {
            next
        } else {
            *self
        }
    }
}

/// Turning is refused for exactly one candidate: the one whose step cancels
/// the current step, that is the 180-degree reversal. Every other pair of
/// current and candidate direction is accepted.
pub proof fn lemma_only_reversal_refused(current: Direction, next: Direction)
    ensures
        !current.accepts_spec(next) <==> (current.dx() + next.dx() == 0 && current.dy()
            + next.dy() == 0),
        current.accepts_spec(next) ==> current.steer_spec(next) == next,
        !current.accepts_spec(next) ==> current.steer_spec(next) == current,
{
}

} // verus!
