//! Conway's Game of Life on a fixed, non-wrapping grid.

pub mod board;
mod draw;
pub mod laws;
