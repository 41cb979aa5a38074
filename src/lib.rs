//! The rules of a snake game on a toroidal grid: steering, movement with
//! wrap-around, growth, self-collision, fruit and score.

pub mod direction;
pub mod grid;
pub mod snake;
pub mod fruit;
pub mod game;
