//! A small arcade game on an integer grid: a ship that slides along the bottom
//! of the screen, a row of descending enemies, and bullets that remove the
//! enemies they touch.
//!
//! Everything here is pure game logic. Positions are whole grid units with the
//! y axis pointing down; time is a count of nanoseconds handed in by the host.
//! Drawing is expressed as a list of commands for the host to carry out.

pub mod assets;
pub mod entity;
pub mod game;
pub mod game_lemmas;
pub mod game_loop;
pub mod geometry;
pub mod input;
pub mod timer;
