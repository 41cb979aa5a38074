use vstd::prelude::*;
use crate::direction::Direction;

verus! {

/// Side of the square window, in pixels.
pub const SIZE_WINDOW: i32 = 800;

/// Side of one grid cell, in pixels.
pub const SIZE_SQUARE: i32 = 50;

/// Number of cells along each side of the grid: the window side over the
/// cell side.
pub const SIZE_GRID: i32 = 16;

/// A grid cell as (column, row).
pub type Cell = (i32, i32);

pub open spec fn in_grid(c: Cell) -> bool {
    0 <= c.0 < SIZE_GRID && 0 <= c.1 < SIZE_GRID
}

/// A coordinate one step off the grid comes back on the opposite edge.
pub open spec fn wrap(v: int) -> int {
    if v > SIZE_GRID - 1 {
        0
    } else if v < 0 {
        SIZE_GRID - 1
    } else {
        v
    }
}

/// The cell reached by one step from `c` towards `d`, on the torus.
pub open spec fn next_cell(c: Cell, d: Direction) -> Cell {
    (wrap(c.0 + d.dx()) as i32, wrap(c.1 + d.dy()) as i32)
}

/// One step from `c` towards `d`, wrapping at the edges.
pub fn step_cell(c: Cell, d: Direction) -> (r: Cell)
    requires
        in_grid(c),
    ensures
        r == next_cell(c, d),
        in_grid(r),
{
    let mut x: i32 = c.0;
    let mut y: i32 = c.1;
    match d {
        Direction::Left => x = x - 1,
        Direction::Right => x = x + 1,
        Direction::Up => y = y - 1,
        Direction::Down => y = y + 1,
    }
    if x > SIZE_GRID - 1 {
        x = 0;
    } else if x < 0 {
        x = SIZE_GRID - 1;
    }
    if y > SIZE_GRID - 1 {
        y = 0;
    } else if y < 0 {
        y = SIZE_GRID - 1;
    }
    (x, y)
}

/// Top-left pixel of a cell: its coordinates times the cell side.
pub open spec fn pixels_of(c: Cell) -> (i32, i32) {
    ((c.0 * SIZE_SQUARE) as i32, (c.1 * SIZE_SQUARE) as i32)
}

pub fn cell_pixels(c: Cell) -> (r: (i32, i32))
    requires
        in_grid(c),
    ensures
        r == pixels_of(c),
        r.0 == c.0 * SIZE_SQUARE,
        r.1 == c.1 * SIZE_SQUARE,
{
    (c.0 * SIZE_SQUARE, c.1 * SIZE_SQUARE)
}

/// Moving off an edge enters the opposite edge: left from the first column
/// lands in the last one, right from the last column in the first, and the
/// same for rows with up and down. In general a step is taken modulo the
/// grid size and stays on the grid.
pub proof fn lemma_wrap_around(c: Cell, d: Direction)
    requires
        in_grid(c),
    ensures
        in_grid(next_cell(c, d)),
        next_cell(c, d).0 == (c.0 + d.dx()) % (SIZE_GRID as int),
        next_cell(c, d).1 == (c.1 + d.dy()) % (SIZE_GRID as int),
        c.0 == 0 ==> next_cell(c, Direction::Left) == ((SIZE_GRID - 1) as i32, c.1),
        c.0 == SIZE_GRID - 1 ==> next_cell(c, Direction::Right) == (0i32, c.1),
        c.1 == 0 ==> next_cell(c, Direction::Up) == (c.0, (SIZE_GRID - 1) as i32),
        c.1 == SIZE_GRID - 1 ==> next_cell(c, Direction::Down) == (c.0, 0i32),
{
}

} // verus!
