//! Verified core of the iMessage exporter: bundle identifier parsing,
//! converter selection and command building, option validation and the
//! rendering of error messages.

pub mod bundle_id;
pub mod text;
pub mod compatibility;
pub mod media_type;
pub mod converter;
pub mod converters;
pub mod ascii;
pub mod attachment_manager;
pub mod export_type;
pub mod platform;
pub mod query_context;
pub mod options;
pub mod decimal;
pub mod error;
pub mod backup;
pub mod laws;
pub mod exporters;
pub mod attachment_metadata;
