//! Poll-driven operations and two combinators over them.
//!
//! An operation is a value that is asked, again and again, whether its work
//! is finished. [`operation::PollableOperation`] is that contract;
//! [`two_ways::a_then_b`] runs one operation after another,
//! [`two_ways::until_equals`] keeps producing operations until one yields a
//! wanted number, and [`basics::sleep`] holds the state of a timer whose wait
//! is done elsewhere.

pub mod basics;
pub mod operation;
pub mod two_ways;
