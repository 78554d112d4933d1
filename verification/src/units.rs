//! Scalar value types, each wrapping one magnitude in a canonical base unit.

pub mod length;
pub mod speed;
pub mod time;
