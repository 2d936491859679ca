//! The entry types under their short path.

pub use crate::models::interfaces::DateFormat;
pub use crate::models::interfaces::Entry;
pub use crate::models::interfaces::EntryId;
