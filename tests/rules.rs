use snake::direction::Direction;
use snake::fruit::{random_cell, Fruit};
use snake::game::Game;
use snake::grid::{cell_pixels, step_cell, SIZE_GRID};
use snake::snake::Snake;

const ALL: [Direction; 4] = [Direction::Right, Direction::Left, Direction::Up, Direction::Down];

fn delta(d: Direction) -> (i32, i32) {
    match d {
        Direction::Right => (1, 0),
        Direction::Left => (-1, 0),
        Direction::Up => (0, -1),
        Direction::Down => (0, 1),
    }
}

fn snake_of(body: Vec<(i32, i32)>, dir: Direction) -> Snake {
    Snake { body, dir, grow: false, refresh: false }
}

#[test]
fn only_reversal_is_refused() {
    for c in ALL {
        for d in ALL {
            let (cx, cy) = delta(c);
            let (dx, dy) = delta(d);
            let reversal = cx + dx == 0 && cy + dy == 0;
            assert_eq!(c.accepts(d), !reversal);
            assert_eq!(c.steer(d), if reversal { c } else { d });
        }
    }
    assert!(!Direction::Up.accepts(Direction::Down));
    assert!(!Direction::Left.accepts(Direction::Right));
    assert!(Direction::Up.accepts(Direction::Left));
    assert!(Direction::Up.accepts(Direction::Up));
    assert_eq!(Direction::Right.opposite(), Direction::Left);
}

#[test]
fn pressed_latches_only_accepted_arrows() {
    let mut g = Game::new();
    assert_eq!(g.last_key, Direction::Right);
    g.pressed(Some(Direction::Left));
    assert_eq!(g.last_key, Direction::Right);
    g.pressed(Some(Direction::Down));
    assert_eq!(g.last_key, Direction::Down);
    g.pressed(None);
    assert_eq!(g.last_key, Direction::Down);
    g.pressed(Some(Direction::Up));
    assert_eq!(g.last_key, Direction::Up);
    assert_eq!(g.snake.dir, Direction::Right);
}

#[test]
fn update_refuses_reversal_from_latch() {
    let mut g = Game::new();
    g.last_key = Direction::Left;
    g.update();
    assert_eq!(g.snake.dir, Direction::Right);
    assert_eq!(g.snake.body, vec![(1, 0), (0, 0)]);
    g.last_key = Direction::Down;
    g.update();
    assert_eq!(g.snake.dir, Direction::Down);
    assert_eq!(g.snake.body, vec![(1, 1), (1, 0)]);
}

#[test]
fn wrap_around_edges() {
    let last = SIZE_GRID - 1;
    assert_eq!(step_cell((0, 7), Direction::Left), (last, 7));
    assert_eq!(step_cell((last, 7), Direction::Right), (0, 7));
    assert_eq!(step_cell((7, 0), Direction::Up), (7, last));
    assert_eq!(step_cell((7, last), Direction::Down), (7, 0));
    assert_eq!(step_cell((4, 5), Direction::Right), (5, 5));
    assert_eq!(step_cell((4, 5), Direction::Up), (4, 4));
}

#[test]
fn sixteen_ticks_wrap_along_the_top_row() {
    assert_eq!(SIZE_GRID, 16);
    let mut g = Game::new();
    assert_eq!(g.snake.body, vec![(0, 0), (0, 1)]);
    for t in 1..=16 {
        g.update();
        assert!(!g.check_fruit());
        assert_eq!(g.snake.body[0], (t % 16, 0));
        assert_eq!(g.snake.body.len(), 2);
    }
    assert_eq!(g.snake.body[0], (0, 0));
    assert_eq!(g.score, 0);
}

#[test]
fn length_kept_grown_and_reset() {
    let mut s = snake_of(vec![(5, 5), (4, 5), (3, 5)], Direction::Right);
    s.update();
    assert_eq!(s.body, vec![(6, 5), (5, 5), (4, 5)]);
    s.grow = true;
    s.update();
    assert_eq!(s.body, vec![(7, 5), (6, 5), (5, 5), (4, 5)]);
    assert!(!s.grow);
    s.update();
    assert_eq!(s.body.len(), 4);
}

#[test]
fn collision_with_body_resets_snake() {
    let mut s = snake_of(vec![(3, 0), (2, 0), (1, 0), (0, 0)], Direction::Left);
    s.grow = true;
    s.update();
    assert_eq!(s.body, vec![(0, 0), (0, 0)]);
    assert_eq!(s.dir, Direction::Right);
    assert!(!s.grow);
    assert!(s.refresh);
    let mut r = Snake::new();
    assert_eq!(r.body, vec![(0, 0), (0, 1)]);
    assert_eq!(r.dir, Direction::Right);
    r.update();
    assert_eq!(r.body, vec![(1, 0), (0, 0)]);
}

#[test]
fn entering_the_tail_cell_is_no_collision() {
    let mut s = snake_of(vec![(0, 0), (1, 0), (1, 1), (0, 1)], Direction::Down);
    s.update();
    assert_eq!(s.body, vec![(0, 1), (0, 0), (1, 0), (1, 1)]);
    assert!(!s.refresh);
    assert_eq!(s.dir, Direction::Down);
}

#[test]
fn collision_zeroes_score_on_update() {
    let mut g = Game::new();
    g.snake = snake_of(vec![(6, 2), (5, 2), (4, 2), (3, 2)], Direction::Left);
    g.last_key = Direction::Left;
    g.score = 7;
    g.update();
    assert_eq!(g.snake.body, vec![(0, 0), (0, 0)]);
    assert_eq!(g.snake.dir, Direction::Right);
    assert!(!g.snake.refresh);
    assert_eq!(g.score, 0);
    g.update();
    assert_eq!(g.snake.body, vec![(1, 0), (0, 0)]);
}

#[test]
fn eating_fruit_scores_and_grows() {
    let mut g = Game::new();
    g.fruit = Fruit { pos: (5, 5) };
    g.snake = snake_of(vec![(4, 5), (3, 5)], Direction::Right);
    g.last_key = Direction::Right;
    assert!(!g.on_fruit());
    g.update();
    assert_eq!(g.snake.body[0], (5, 5));
    assert!(g.on_fruit());
    assert!(g.check_fruit());
    assert_eq!(g.score, 1);
    assert!(g.snake.grow);
    assert!(g.fruit.pos.0 >= 0 && g.fruit.pos.0 < SIZE_GRID);
    assert!(g.fruit.pos.1 >= 0 && g.fruit.pos.1 < SIZE_GRID);
    g.update();
    assert_eq!(g.snake.body.len(), 3);
    assert!(!g.snake.grow);
}

#[test]
fn consume_fruit_moves_it_to_given_cell() {
    let mut g = Game::new();
    g.fruit = Fruit { pos: (0, 0) };
    g.score = 4;
    assert!(g.consume_fruit((2, 3)));
    assert_eq!(g.fruit.pos, (2, 3));
    assert_eq!(g.score, 5);
    assert!(g.snake.grow);
    assert!(!g.consume_fruit((9, 9)));
    assert_eq!(g.fruit.pos, (2, 3));
    assert_eq!(g.score, 5);
}

#[test]
fn random_cells_stay_on_grid() {
    for _ in 0..200 {
        let (x, y) = random_cell();
        assert!(0 <= x && x < SIZE_GRID && 0 <= y && y < SIZE_GRID);
    }
    let mut f = Fruit::new();
    assert_eq!(f.pos, (8, 8));
    f.update();
    assert!(0 <= f.pos.0 && f.pos.0 < SIZE_GRID && 0 <= f.pos.1 && f.pos.1 < SIZE_GRID);
}

#[test]
fn pixel_positions() {
    assert_eq!(cell_pixels((3, 15)), (150, 750));
    let s = snake_of(vec![(1, 2), (1, 3)], Direction::Up);
    assert_eq!(s.squares(), vec![(50, 100), (50, 150)]);
    assert_eq!(Fruit { pos: (8, 8) }.square(), (400, 400));
}

#[test]
fn score_bar_fills_rows() {
    let mut g = Game::new();
    assert!(g.score_squares().is_empty());
    g.score = 17;
    let sq = g.score_squares();
    assert_eq!(sq.len(), 17);
    assert_eq!(sq[0], (0, 0));
    assert_eq!(sq[1], (50, 0));
    assert_eq!(sq[15], (750, 0));
    assert_eq!(sq[16], (0, 50));
}
