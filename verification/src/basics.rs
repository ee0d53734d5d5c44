//! Leaf operations.

pub mod sleep;
