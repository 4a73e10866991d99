//! Small shared helpers.

pub mod bits;
pub mod grid;
