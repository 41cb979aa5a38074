use vstd::prelude::*;
use crate::direction::Direction;
use crate::fruit::{Fruit, random_cell};
use crate::grid::{Cell, in_grid, SIZE_GRID, SIZE_SQUARE};
use crate::snake::{Snake, SnakeView, initial_snake, initial_body, moved};

verus! {

/// A game: the snake, the fruit, the last accepted arrow key, and the score.
pub struct Game {
    pub snake: Snake,
    pub fruit: Fruit,
    pub last_key: Direction,
    pub score: u32,
}

/// The abstract state of a game.
pub struct GameView {
    pub snake: SnakeView,
    pub fruit: Cell,
    pub last_key: Direction,
    pub score: nat,
}

impl View for Game {
    type V = GameView;

    open spec fn view(&self) -> GameView {
        GameView {
            snake: self.snake@,
            fruit: self.fruit.pos,
            last_key: self.last_key,
            score: self.score as nat,
        }
    }
}

/// A game as it starts: the starting snake, the fruit in the middle, the
/// right arrow latched and no score.
pub open spec fn initial_game() -> GameView {
    GameView {
        snake: initial_snake(),
        fruit: ((SIZE_GRID / 2) as i32, (SIZE_GRID / 2) as i32),
        last_key: Direction::Right,
        score: 0,
    }
}

impl GameView {
    pub open spec fn wf(self) -> bool {
        self.snake.wf() && in_grid(self.fruit)
    }

    /// The latch after a key press: an arrow key (`Some`) is taken unless it
    /// reverses the snake; anything else leaves the latch as it was.
    pub open spec fn press(self, key: Option<Direction>) -> GameView {
        let latched = match key {
            Some(d) => if self.snake.dir.accepts_spec(d) {
                d
            } else {
                self.last_key
            },
            None => self.last_key,
        };
        GameView { snake: self.snake, fruit: self.fruit, last_key: latched, score: self.score }
    }

    /// The snake with its heading taken from the latch, where that is no reversal.
    pub open spec fn steered(self) -> SnakeView {
        SnakeView {
            body: self.snake.body,
            dir: self.snake.dir.steer_spec(self.last_key),
            grow: self.snake.grow,
            refresh: self.snake.refresh,
        }
    }

    /// One tick: steer, step the snake, and zero the score if the snake was reset.
    pub open spec fn tick(self) -> GameView {
        let s = self.steered().step();
        if s.refresh {
            GameView {
                snake: SnakeView { body: s.body, dir: s.dir, grow: s.grow, refresh: false },
                fruit: self.fruit,
                last_key: self.last_key,
                score: 0,
            }
        } else {
            GameView { snake: s, fruit: self.fruit, last_key: self.last_key, score: self.score }
        }
    }

    /// The head is on the fruit.
    pub open spec fn on_fruit(self) -> bool {
        self.snake.head() == self.fruit
    }

    /// Eating the fruit: it moves to `cell`, the snake will grow on its next
    /// step, and the score goes up by one.
    pub open spec fn eat(self, cell: Cell) -> GameView {
        GameView {
            snake: SnakeView {
                body: self.snake.body,
                dir: self.snake.dir,
                grow: true,
                refresh: self.snake.refresh,
            },
            fruit: cell,
            last_key: self.last_key,
            score: self.score + 1,
        }
    }
}

/// Top-left pixel of the `i`-th square of the score bar: the squares fill
/// rows of the grid's width from left to right, rows from top to bottom.
pub open spec fn score_square(i: int) -> (u64, u64) {
    (((i % (SIZE_GRID as int)) * SIZE_SQUARE) as u64, ((i / (SIZE_GRID as int)) * SIZE_SQUARE) as u64)
}

/// The snake's length is kept by every tick except in two ways: a snake
/// that was to grow comes out one cell longer, and a colliding snake comes
/// out reset, two cells long. Eating changes no length. The snake never has
/// fewer than two cells, and a tick keeps the game well formed.
pub proof fn lemma_tick_length(g: GameView, cell: Cell)
    requires
        g.wf(),
        in_grid(cell),
    ensures
        g.tick().wf(),
        g.tick().snake.body.len() >= 2,
        !g.steered().collides() ==> g.tick().snake.body.len() == g.snake.body.len() + (if g.snake.grow {
            1int
        } else {
            0int
        }),
        g.steered().collides() ==> g.tick().snake.body.len() == 2,
        g.eat(cell).wf(),
        g.eat(cell).snake.body.len() == g.snake.body.len(),
{
    let s = g.steered();
    if !s.collides() {
        let b = moved(s.body, s.next_head(), s.grow);
        assert forall|i: int| 0 <= i < b.len() implies #[trigger] in_grid(b[i]) by {
            if i > 0 {
                assert(b[i] == s.body[i - 1]);
            }
        }
    } else {
        let b = moved(initial_body(), initial_body()[0], false);
        assert(b =~= seq![(0i32, 0i32), (0i32, 0i32)]);
    }
}

/// A collision on a tick resets the snake: its body becomes the starting
/// body `[(0,0),(0,1)]` stepped once from its own head (so `[(0,0),(0,0)]`),
/// it heads right and will not grow, and the same tick consumes the reset
/// signal and zeroes the score.
pub proof fn lemma_self_collision_resets(g: GameView)
    requires
        g.wf(),
        g.steered().collides(),
    ensures
        g.steered().step().refresh,
        g.tick().snake.body == moved(initial_body(), initial_body()[0], false),
        g.tick().snake.body =~= seq![(0i32, 0i32), (0i32, 0i32)],
        g.tick().snake.dir == Direction::Right,
        !g.tick().snake.grow,
        !g.tick().snake.refresh,
        g.tick().score == 0,
{
}

/// Eating a fruit under the head adds exactly one point, makes the snake grow
/// and puts the fruit on the given grid cell; the next tick that does not
/// collide lengthens the snake by one.
pub proof fn lemma_fruit_consumption(g: GameView, cell: Cell)
    requires
        g.wf(),
        g.on_fruit(),
        in_grid(cell),
    ensures
        g.eat(cell).score == g.score + 1,
        g.eat(cell).snake.grow,
        g.eat(cell).fruit == cell,
        g.eat(cell).wf(),
        !g.eat(cell).steered().collides() ==> g.eat(cell).tick().snake.body.len()
            == g.snake.body.len() + 1,
{
    lemma_tick_length(g.eat(cell), cell);
}

impl Game {
    /// The starting game.
    pub fn new() -> (r: Game)
        ensures
            r@ == initial_game(),
            r@.wf(),
    {
        Game { snake: Snake::new(), fruit: Fruit::new(), last_key: Direction::Right, score: 0 }
    }

    /// Takes a key press: `Some` for an arrow key, `None` for any other button.
    pub fn pressed(&mut self, btn: Option<Direction>)
        ensures
            final(self)@ == old(self)@.press(btn),
    {
        let last_direction = self.snake.dir;
        match btn {
            Some(d) => {
                if last_direction.accepts(d) {
                    self.last_key = d;
                }
            },
            None => {},
        }
    }

    /// One tick of the game.
    pub fn update(&mut self)
        requires
            old(self)@.wf(),
        ensures
            final(self)@ == old(self)@.tick(),
            final(self)@.wf(),
    {
        let last_direction = self.snake.dir;
        self.snake.dir = last_direction.steer(self.last_key);
        self.snake.update();
        if self.snake.refresh {
            self.snake.refresh = false;
            self.score = 0;
        }
    }

    /// Whether the snake's head is on the fruit.
    pub fn on_fruit(&self) -> (r: bool)
        requires
            self@.wf(),
        ensures
            r == self@.on_fruit(),
    {
        let head = self.snake.head();
        head.0 == self.fruit.pos.0 && head.1 == self.fruit.pos.1
    }

    /// Eats the fruit if the head is on it, moving the fruit to `cell`.
    /// Returns whether it was eaten.
    pub fn consume_fruit(&mut self, cell: Cell) -> (eaten: bool)
        requires
            old(self)@.wf(),
            in_grid(cell),
            old(self).score < u32::MAX,
        ensures
            eaten == old(self)@.on_fruit(),
            eaten ==> final(self)@ == old(self)@.eat(cell),
            !eaten ==> final(self)@ == old(self)@,
            final(self)@.wf(),
    {
        if self.on_fruit() {
            self.fruit.pos = cell;
            self.snake.grow = true;
            self.score = self.score + 1;
            true
        } else {
            false
        }
    }

    /// Eats the fruit if the head is on it, moving the fruit to a random cell.
    /// Returns whether it was eaten.
    pub fn check_fruit(&mut self) -> (eaten: bool)
        requires
            old(self)@.wf(),
            old(self).score < u32::MAX,
        ensures
            eaten == old(self)@.on_fruit(),
            eaten ==> final(self)@ == old(self)@.eat(final(self)@.fruit),
            !eaten ==> final(self)@ == old(self)@,
            final(self)@.wf(),
    {
        if self.on_fruit() {
            let cell = random_cell();
            self.consume_fruit(cell)
        } else {
            false
        }
    }

    /// Top-left pixels of the score bar's squares, one per point.
    pub fn score_squares(&self) -> (r: Vec<(u64, u64)>)
        ensures
            r@.len() == self.score,
            forall|i: int| 0 <= i < r@.len() ==> #[trigger] r@[i] == score_square(i),
    {
        let grid: u32 = SIZE_GRID as u32;
        let side: u64 = SIZE_SQUARE as u64;
        let mut r: Vec<(u64, u64)> = Vec::new();
        let mut k: u32 = 0;
        let mut i: u32 = 0;
        while i < self.score
            invariant
                0 <= i <= self.score,
                grid == SIZE_GRID,
                side == SIZE_SQUARE,
                k == i / grid,
                r@.len() == i,
                forall|j: int| 0 <= j < i ==> #[trigger] r@[j] == score_square(j),
            decreases self.score - i,
        {
            let column = i % grid;
            r.push(((column as u64) * side, (k as u64) * side));
            if column > grid - 2 {
                k = k + 1;
            }
            i = i + 1;
        }
        r
    }
}

} // verus!
