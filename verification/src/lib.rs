//! A snake game on a fixed grid: the state of one game and the rules that
//! advance it, with every rule stated as a contract and proved.

pub mod direction;
pub mod game;
pub mod grid;
pub mod laws;
pub mod model;
pub mod point;
mod random;
pub mod screen;

pub use direction::{GameState, PlayerDirection};
pub use game::GameContext;
pub use model::{GameModel, TickOutcome};
pub use point::Point;
