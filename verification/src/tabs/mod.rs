//! The tabs of the main screen.

pub mod pending;
