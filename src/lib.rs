//! Procedural generation of line glyphs on a square grid.
//!
//! A glyph is a list of segments between grid points, produced from a
//! configuration (an [`Alphabet`]) and a seed. Every coordinate is a grid
//! index `k` in `0..resolution`, standing for the normalized value
//! `k / (resolution - 1)` in `[0, 1]`; a border test on a coordinate is
//! therefore exact.

pub mod alphabet;
pub mod grid;
pub mod laws;
mod stream;
pub mod symmetry;

pub use alphabet::{Alphabet, Attempt, ConfigError, Glyph};
pub use grid::{Line, Point};
pub use symmetry::{expand_symmetry, Motif, Symmetry};
