pub mod game;
pub mod grid;
