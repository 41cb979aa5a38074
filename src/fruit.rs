use vstd::prelude::*;
use rand::Rng;
use crate::grid::{Cell, in_grid, cell_pixels, pixels_of, SIZE_GRID};

verus! {

/// The fruit's cell. It may lie under the snake: nothing keeps it off the body.
pub struct Fruit {
    pub pos: Cell,
}

/// Relies on rand::thread_rng and rand::Rng::gen_range (rand 0.7): a value in
/// `[low, high)`; gen_range panics when `low >= high`.
#[verifier::external_body]
fn random_in(low: i32, high: i32) -> (r: i32)
    requires
        low < high,
    ensures
        low <= r < high,
{
    rand::thread_rng().gen_range(low, high)
}

/// A cell drawn at random over the whole grid.
pub fn random_cell() -> (r: Cell)
    ensures
        in_grid(r),
{
    let x = random_in(0, SIZE_GRID);
    let y = random_in(0, SIZE_GRID);
    (x, y)
}

impl Fruit {
    /// The first fruit, in the middle of the grid.
    pub fn new() -> (r: Fruit)
        ensures
            r.pos == ((SIZE_GRID / 2) as i32, (SIZE_GRID / 2) as i32),
            in_grid(r.pos),
    {
        Fruit { pos: (SIZE_GRID / 2, SIZE_GRID / 2) }
    }

    /// Moves the fruit to a random cell of the grid.
    pub fn update(&mut self)
        ensures
            in_grid(final(self).pos),
    {
        self.pos = random_cell();
    }

    /// Top-left pixel of the fruit's cell.
    pub fn square(&self) -> (r: (i32, i32))
        requires
            in_grid(self.pos),
        ensures
            r == pixels_of(self.pos),
    {
        cell_pixels(self.pos)
    }
}

} // verus!
