//! A toroidal two-dimensional binary cellular automaton (Conway's Game of
//! Life). The grid is bit-packed in a `fixedbitset::FixedBitSet`; every
//! operation on it — stepping a generation, point mutation, resizing,
//! clearing, randomizing, and deriving an RGBA pixel buffer — is verified
//! against a mathematical model of the grid.

#![allow(unused_imports)]

pub mod bits;
pub mod entropy;
pub mod grid;
pub mod rules;

pub use crate::grid::Universe;
