//! States that are advanced by reference.
pub mod state;
