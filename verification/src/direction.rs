//! Headings of the snake and the phases of a game.

use crate::point::Point;
use vstd::prelude::*;

verus! {

/// The way the snake is heading.
#[derive(Clone, Copy, Debug, PartialEq, Eq, Structural)]
pub enum PlayerDirection {
    Up,
    Down,
    Right,
    Left,
}

/// The phase of a game.
#[derive(Clone, Copy, Debug, PartialEq, Eq, Structural)]
pub enum GameState {
    Playing,
    Paused,
    Over,
}

impl PlayerDirection {
    /// The displacement of one step in this direction. `y` grows downwards,
    /// so `Up` is `(0, -1)`.
    pub open spec fn step(self) -> Point {
        match self {
            PlayerDirection::Up => Point(0, -1i32),
            PlayerDirection::Down => Point(0, 1),
            PlayerDirection::Left => Point(-1i32, 0),
            PlayerDirection::Right => Point(1, 0),
        }
    }

    /// The direction that points the other way.
    pub open spec fn reverse(self) -> PlayerDirection {
        match self {
            PlayerDirection::Up => PlayerDirection::Down,
            PlayerDirection::Down => PlayerDirection::Up,
            PlayerDirection::Left => PlayerDirection::Right,
            PlayerDirection::Right => PlayerDirection::Left,
        }
    }

    /// The displacement of one step in this direction.
    pub fn vector(&self) -> (v: Point)
        ensures
            v == self.step(),
    {
        match self {
            PlayerDirection::Up => Point(0, -1),
            PlayerDirection::Down => Point(0, 1),
            PlayerDirection::Left => Point(-1, 0),
            PlayerDirection::Right => Point(1, 0),
        }
    }

    /// The direction that points the other way.
    pub fn opposite(&self) -> (d: PlayerDirection)
        ensures
            d == self.reverse(),
    {
        match self {
            PlayerDirection::Up => PlayerDirection::Down,
            PlayerDirection::Down => PlayerDirection::Up,
            PlayerDirection::Left => PlayerDirection::Right,
            PlayerDirection::Right => PlayerDirection::Left,
        }
    }
}

} // verus!
