use vstd::prelude::*;
use crate::direction::Direction;
use crate::grid::{Cell, in_grid, next_cell, step_cell, cell_pixels, pixels_of};

verus! {

/// The snake: its cells from head to tail, the heading of its next step,
/// whether the next step keeps the tail, and whether it was just reset.
pub struct Snake {
    pub body: Vec<Cell>,
    pub dir: Direction,
    pub grow: bool,
    pub refresh: bool,
}

/// The abstract state of a snake.
pub struct SnakeView {
    pub body: Seq<Cell>,
    pub dir: Direction,
    pub grow: bool,
    pub refresh: bool,
}

impl View for Snake {
    type V = SnakeView;

    open spec fn view(&self) -> SnakeView {
        SnakeView { body: self.body@, dir: self.dir, grow: self.grow, refresh: self.refresh }
    }
}

/// The body a snake starts with, and is reset to.
pub open spec fn initial_body() -> Seq<Cell> {
    seq![(0i32, 0i32), (0i32, 1i32)]
}

/// A snake as it starts, heading right.
pub open spec fn initial_snake() -> SnakeView {
    SnakeView { body: initial_body(), dir: Direction::Right, grow: false, refresh: false }
}

/// `body` after `head` is pushed in front; the tail cell is dropped unless
/// the snake grows.
pub open spec fn moved(body: Seq<Cell>, head: Cell, grow: bool) -> Seq<Cell> {
    if grow {
        seq![head] + body
    } else {
        seq![head] + body.drop_last()
    }
}

impl SnakeView {
    /// At least two cells, all on the grid.
    pub open spec fn wf(self) -> bool {
        &&& self.body.len() >= 2
        &&& forall|i: int| 0 <= i < self.body.len() ==> #[trigger] in_grid(self.body[i])
    }

    pub open spec fn head(self) -> Cell {
        self.body[0]
    }

    /// The cell the head enters on the next step.
    pub open spec fn next_head(self) -> Cell {
        next_cell(self.head(), self.dir)
    }

    /// The next head runs into the body: it lands on a cell of the body other
    /// than the tail cell, which the step vacates. Entering the tail cell is
    /// allowed even when the snake is about to grow and keeps its tail.
    pub open spec fn collides(self) -> bool {
        self.body.contains(self.next_head()) && self.next_head() != self.body.last()
    }

    /// One step. On a collision the snake is reset to its initial state,
    /// marked as refreshed, and the step goes on from there with the reset
    /// head as the new head; otherwise the head advances.
    pub open spec fn step(self) -> SnakeView {
        if self.collides() {
            SnakeView {
                body: moved(initial_body(), initial_body()[0], false),
                dir: Direction::Right,
                grow: false,
                refresh: true,
            }
        } else {
            SnakeView {
                body: moved(self.body, self.next_head(), self.grow),
                dir: self.dir,
                grow: false,
                refresh: self.refresh,
            }
        }
    }
}

impl Snake {
    /// The starting snake: cells (0,0) and (0,1), heading right.
    pub fn new() -> (r: Snake)
        ensures
            r@ == initial_snake(),
            r@.wf(),
    {
        let r = Snake { body: vec![(0, 0), (0, 1)], dir: Direction::Right, grow: false, refresh: false };
        assert(r@.body =~= initial_body());
        r
    }

    /// The head cell.
    pub fn head(&self) -> (r: Cell)
        requires
            self@.wf(),
        ensures
            r == self@.head(),
    {
        self.body[0]
    }

    /// Advances the snake one cell in its current direction.
    pub fn update(&mut self)
        requires
            old(self)@.wf(),
        ensures
            final(self)@ == old(self)@.step(),
            final(self)@.wf(),
    {
        let mut new_head = step_cell(self.body[0], self.dir);
        let tail = self.body[self.body.len() - 1];
        let mut collided = false;
        let mut i: usize = 0;
        while i < self.body.len()
            invariant
                *self == *old(self),
                self@.wf(),
                new_head == self@.next_head(),
                tail == self@.body.last(),
                0 <= i <= self.body.len(),
                collided == (new_head != tail && exists|j: int|
                    0 <= j < i && #[trigger] self@.body[j] == new_head),
            decreases self.body.len() - i,
        {
            let block = self.body[i];
            if block.0 == new_head.0 && block.1 == new_head.1 {
                if block.0 != tail.0 || block.1 != tail.1 {
                    collided = true;
                }
            }
            i = i + 1;
        }
        if collided {
            *self = Snake::new();
            self.refresh = true;
            new_head = self.body[0];
        }
        self.body.insert(0, new_head);
        if !self.grow {
            self.body.pop();
        } else {
            self.grow = false;
        }
        proof {
            assert(self@.body =~= old(self)@.step().body);
        }
    }

    /// Top-left pixels of the snake's cells, head first.
    pub fn squares(&self) -> (r: Vec<(i32, i32)>)
        requires
            self@.wf(),
        ensures
            r@.len() == self.body@.len(),
            forall|i: int|
                0 <= i < r@.len() ==> #[trigger] r@[i] == pixels_of(self.body@[i]),
    {
        let mut r: Vec<(i32, i32)> = Vec::new();
        let mut i: usize = 0;
        while i < self.body.len()
            invariant
                self@.wf(),
                0 <= i <= self.body.len(),
                r@.len() == i,
                forall|j: int|
                    0 <= j < i ==> #[trigger] r@[j] == pixels_of(self.body@[j]),
            decreases self.body.len() - i,
        {
            r.push(cell_pixels(self.body[i]));
            i = i + 1;
        }
        r
    }
}

} // verus!
