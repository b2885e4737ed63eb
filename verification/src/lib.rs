//! The rules of a Yars' Revenge style arcade game: the Qotile's shield of
//! nibbleable cells, Yar's movement, the missile, the Zorlon Cannon and the
//! per-frame decisions of the game, on integer screen coordinates.

pub mod geometry;
pub mod shield;
pub mod tally;
pub mod missile;
pub mod cannon;
pub mod game;
