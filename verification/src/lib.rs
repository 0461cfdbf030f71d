//! Conway's Game of Life on a fixed-size grid whose opposite edges are joined.
//!
//! [`Universe`] owns the cells and offers the three operations of the
//! simulation: create, advance by one generation, and render as text. What
//! each operation does is stated over [`grid::Grid`], the mathematical model
//! of the grid, and the properties of that model are proved in [`laws`],
//! [`patterns`] and [`text`].

pub mod arith;
pub mod cell;
pub mod grid;
pub mod laws;
pub mod patterns;
pub mod text;
pub mod universe;

pub use crate::cell::Cell;
pub use crate::universe::{GridError, Universe};
