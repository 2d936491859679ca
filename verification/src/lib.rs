//! A booking calendar for one shared resource, kept in a remote row store.
//!
//! The crate records who occupies a calendar date and answers range queries
//! such as "what is booked in the next N weeks". It validates dates, resolves
//! query ranges, builds the filter requests sent to the remote store and
//! decodes what comes back. The remote store itself is reached through the
//! [`models::database::RowStore`] capability.

pub mod filters;
pub mod models;

pub mod supabase;
