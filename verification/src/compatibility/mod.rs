//! Compatibility helpers: the file converters used to make attachments
//! viewable on other platforms.

pub mod converters;
pub mod models;
