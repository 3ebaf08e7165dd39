//! The ways attachments can be copied during an export.

use vstd::prelude::*;

use crate::ascii::{ascii_lower, eq_ignore_ascii_case_to};

verus! {

/// How attachments are copied during an export
#[derive(Debug, PartialEq, Eq, Structural)]
pub enum AttachmentManagerMode {
    /// Copy all files without converting anything
    Clone,
    /// Copy all files and convert HEIC images to JPEG
    Basic,
    /// Copy all files, converting HEIC files to JPEG, CAF to MP4, and MOV to MP4
    Full,
    /// Do not copy attachments
    Disabled,
}

/// The mode that a command line value names, ignoring ASCII case.
pub open spec fn spec_attachment_manager_from_cli(s: Seq<char>) -> Option<AttachmentManagerMode> {
    if ascii_lower(s) == "clone"@ {
        Some(AttachmentManagerMode::Clone)
    } else if ascii_lower(s) == "basic"@ {
        Some(AttachmentManagerMode::Basic)
    } else if ascii_lower(s) == "full"@ {
        Some(AttachmentManagerMode::Full)
    } else if ascii_lower(s) == "disabled"@ {
        Some(AttachmentManagerMode::Disabled)
    } else {
        None
    }
}

impl AttachmentManagerMode {
    /// Given user's input, return a variant if the input matches one
    pub fn from_cli(mode: &str) -> (res: Option<AttachmentManagerMode>)
        ensures
            res == spec_attachment_manager_from_cli(mode@),
    {
        if eq_ignore_ascii_case_to(mode, "clone") {
            Some(AttachmentManagerMode::Clone)
        } else if eq_ignore_ascii_case_to(mode, "basic") {
            Some(AttachmentManagerMode::Basic)
        } else if eq_ignore_ascii_case_to(mode, "full") {
            Some(AttachmentManagerMode::Full)
        } else if eq_ignore_ascii_case_to(mode, "disabled") {
            Some(AttachmentManagerMode::Disabled)
        } else {
            None
        }
    }

    /// The command line name of this mode.
    pub open spec fn spec_to_str(&self) -> Seq<char> {
        match self {
            AttachmentManagerMode::Clone => "clone"@,
            AttachmentManagerMode::Basic => "basic"@,
            AttachmentManagerMode::Full => "full"@,
            AttachmentManagerMode::Disabled => "disabled"@,
        }
    }

    /// The command line name of this mode.
    pub fn to_str(&self) -> (res: &'static str)
        ensures
            res@ == self.spec_to_str(),
    {
        match self {
            AttachmentManagerMode::Clone => "clone",
            AttachmentManagerMode::Basic => "basic",
            AttachmentManagerMode::Full => "full",
            AttachmentManagerMode::Disabled => "disabled",
        }
    }
}

impl Default for AttachmentManagerMode {
    /// Attachments are not copied unless a mode is chosen
    fn default() -> (res: AttachmentManagerMode)
        ensures
            res == AttachmentManagerMode::Disabled,
    {
        AttachmentManagerMode::Disabled
    }
}

} // verus!
