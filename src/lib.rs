pub mod asteroid;
pub mod command;
pub mod direction;
pub mod point;
pub mod ship;
pub mod game;
