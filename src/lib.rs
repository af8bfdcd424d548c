//! A snake game on a fixed grid: the simulation that moves the snake, turns it,
//! detects collisions, places and eats fruit, and handles pause and replay.

pub mod model;
pub mod game;
pub mod laws;
