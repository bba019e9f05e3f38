//! Shared state document of a node-based ingredient dispenser: its records,
//! their defaults and wire tokens, and the read, replace and merge operations
//! of each sub-resource, with the laws they obey.

pub mod api;
pub mod laws;
pub mod state;
