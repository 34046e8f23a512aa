//! Simulation core of a grid-based snake game: the snake's body and heading,
//! collision rules, food placement and the game-over / restart cycle.
pub mod game;
pub mod snake;
pub mod rules;
