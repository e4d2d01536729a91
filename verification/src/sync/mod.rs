//! Queries that are answered at once: the arguments they hand to the
//! version-control client, and what they read from its answer.

pub mod change;
pub mod diff;
pub mod file;
pub mod text;
