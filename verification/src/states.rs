//! The state-vector operations.

pub mod all;
pub mod own;
