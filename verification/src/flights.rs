//! The flight-listing operations.

pub mod aircraft;
pub mod all;
pub mod arrival;
