//! Combinators, each written out by hand as a state machine.

pub mod a_then_b;
pub mod until_equals;
