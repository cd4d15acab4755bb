pub mod facing;
pub mod game;
pub mod position;
