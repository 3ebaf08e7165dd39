//! The file formats that messages export into.

use vstd::prelude::*;

use crate::ascii::{ascii_lower, eq_ignore_ascii_case_to};

verus! {

/// A file format that messages export into
#[derive(Debug, PartialEq, Eq, Structural)]
pub enum ExportType {
    /// HTML file export
    Html,
    /// Text file export
    Txt,
}

/// The export type that a command line value names, ignoring ASCII case.
pub open spec fn spec_export_type_from_cli(s: Seq<char>) -> Option<ExportType> {
    if ascii_lower(s) == "html"@ {
        Some(ExportType::Html)
    } else if ascii_lower(s) == "txt"@ {
        Some(ExportType::Txt)
    } else {
        None
    }
}

impl ExportType {
    /// The file extension, and command line name, of this export type.
    pub open spec fn spec_to_str(&self) -> Seq<char> {
        match self {
            ExportType::Html => "html"@,
            ExportType::Txt => "txt"@,
        }
    }

    /// Given user's input, return a variant if the input matches one
    pub fn from_cli(export_type: &str) -> (res: Option<ExportType>)
        ensures
            res == spec_export_type_from_cli(export_type@),
    {
        if eq_ignore_ascii_case_to(export_type, "html") {
            Some(ExportType::Html)
        } else if eq_ignore_ascii_case_to(export_type, "txt") {
            Some(ExportType::Txt)
        } else {
            None
        }
    }

    /// The file extension, and command line name, of this export type.
    pub fn to_str(&self) -> (res: &'static str)
        ensures
            res@ == self.spec_to_str(),
    {
        match self {
            ExportType::Html => "html",
            ExportType::Txt => "txt",
        }
    }
}

} // verus!
