//! Window events.

pub mod ime;
