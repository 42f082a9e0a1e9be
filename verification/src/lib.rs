//! A two-paddle, one-ball arcade match on an integer grid.
//!
//! Every length, position and velocity is a fixed-point number held in an
//! `i64`: one pixel is [`game::UNITS_PER_PIXEL`] units. Working on integers
//! keeps each step of the simulation exact, so the rules of the game can be
//! stated and proved as they are written.

pub mod game;
