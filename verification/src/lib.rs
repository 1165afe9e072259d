//! Split decisions for a LiveSplit auto splitter of the game Get To Work.
//!
//! The splitter is a state machine fed one reading of the game per tick; it
//! answers with the timer operations for that tick. Everything here is pure
//! and verified; reading the game's memory and driving the timer are left to
//! the caller.

pub mod splitter;
pub mod laws;
pub mod reading;
pub mod session;

pub use splitter::{Actions, Snapshot, Splitter};
