//! A character-grid console engine for an interactive-fiction player: a cell
//! grid, a permanent scroll buffer with a recomputable line index, status,
//! upper and lower regions, paging and line input.
pub mod text;
pub mod grid;
pub mod wrap;
pub mod screen;
pub mod ifiction;
pub mod ifdb;
pub mod windows;
