//! Exporters that write messages out.

pub mod json;
