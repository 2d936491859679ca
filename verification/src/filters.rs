//! What the facade answers to its callers.

pub mod filters;
