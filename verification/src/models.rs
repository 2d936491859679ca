//! The data model: calendar dates, entries, ranges and the error taxonomy.

pub mod calendar;
pub mod constants;
pub mod database;
pub mod entry;
pub mod errors;
pub mod interfaces;
pub mod range;
pub mod request;
pub mod response;
pub mod time_provider;
