//! State and rules of a terminal front-end for a version-control client,
//! and of the single-slot job scheduler it hands long-running work to.

pub mod asyncjob;
pub mod error;
pub mod sync;
pub mod input;
pub mod keys;
pub mod components;
pub mod tabs;
pub mod strings;
pub mod commandbar;
pub mod tabbar;
pub mod app;
pub mod args;
pub mod layout;
pub mod paths;
