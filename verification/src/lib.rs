//! Cursor movement requests for a character grid, and what can be said of a
//! request before it is carried out: the direction in which the cursor would
//! travel, and whether the request is of a kind that may scroll the screen.
//!
//! Nothing here decides how far the cursor gets or clamps it to the screen.

pub mod grid;
pub mod movement;

pub use grid::{Coords, Direction};
pub use movement::Movement;
