//! The window's main loop.

pub mod ios;
