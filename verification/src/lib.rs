//! Verified core of a top-down racing simulation: the input state machine
//! that turns raw key events into per-tick action states, the thrust a player
//! asks for, the order of the vehicles on the start line, and the
//! fixed-length history of points behind each exhaust.

pub mod controls;
pub mod engine_trail;
pub mod keymap;
pub mod start_grid;
