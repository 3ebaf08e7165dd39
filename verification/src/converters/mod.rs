//! Attachment conversion: which files convert, and to what.

pub mod convert;
