//! The platforms an iMessage database can come from.

use vstd::prelude::*;

use crate::ascii::{ascii_lower, eq_ignore_ascii_case_to};

verus! {

/// The platform that created the database
#[allow(non_camel_case_types)]
#[derive(Debug, PartialEq, Eq, Structural)]
pub enum Platform {
    /// macOS-sourced data
    macOS,
    /// iOS-sourced data
    iOS,
}

/// The platform that a command line value names, ignoring ASCII case.
pub open spec fn spec_platform_from_cli(s: Seq<char>) -> Option<Platform> {
    if ascii_lower(s) == "macos"@ {
        Some(Platform::macOS)
    } else if ascii_lower(s) == "ios"@ {
        Some(Platform::iOS)
    } else {
        None
    }
}

impl Platform {
    /// Given user's input, return a variant if the input matches one
    pub fn from_cli(platform: &str) -> (res: Option<Platform>)
        ensures
            res == spec_platform_from_cli(platform@),
    {
        if eq_ignore_ascii_case_to(platform, "macos") {
            Some(Platform::macOS)
        } else if eq_ignore_ascii_case_to(platform, "ios") {
            Some(Platform::iOS)
        } else {
            None
        }
    }

    /// How this platform is shown to the user.
    pub open spec fn spec_to_str(&self) -> Seq<char> {
        match self {
            Platform::macOS => "macOS"@,
            Platform::iOS => "iOS"@,
        }
    }

    /// How this platform is shown to the user.
    pub fn to_str(&self) -> (res: &'static str)
        ensures
            res@ == self.spec_to_str(),
    {
        match self {
            Platform::macOS => "macOS",
            Platform::iOS => "iOS",
        }
    }
}

impl Default for Platform {
    /// The default platform is macOS
    fn default() -> (res: Platform)
        ensures
            res == Platform::macOS,
    {
        Platform::macOS
    }
}

} // verus!
