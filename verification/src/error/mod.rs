//! Errors that can happen when reading iMessage data.

pub mod message;
pub mod table;
