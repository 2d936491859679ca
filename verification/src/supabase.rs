//! The entry store and what it needs to speak with the remote row store.

pub mod codec;
pub mod json;
pub mod laws;
pub mod memory;
pub mod supabase;
pub mod tables;
pub mod wire;
