//! Decisions for reading encrypted iOS backups.

use vstd::prelude::*;

use crate::options::{Options, DEFAULT_PATH_IOS};
use crate::platform::Platform;

verus! {

/// The password to decrypt the source with: the one given, when the source is an
/// iOS backup. Any other source is read as it is.
pub fn backup_password(options: &Options) -> (res: Option<&String>)
    ensures
        options.platform == Platform::iOS && options.cleartext_password is Some ==> res
            == Some(&options.cleartext_password->0),
        !(options.platform == Platform::iOS && options.cleartext_password is Some) ==> res is None,
{
    match (&options.platform, &options.cleartext_password) {
        (Platform::iOS, Some(pw)) => Some(pw),
        _ => None,
    }
}

/// The identifier of the messages database within an iOS backup: its location
/// in the backup without the leading directory, which is its first three characters.
pub fn ios_database_file_id() -> (res: &'static str)
    ensures
        res@ == DEFAULT_PATH_IOS@.subrange(3, DEFAULT_PATH_IOS@.len() as int),
{
    proof {
        reveal_strlit("3d/3d0d7e5fb2ce288813306e4d4636395e047a3d28");
    }
    let n = DEFAULT_PATH_IOS.unicode_len();
    DEFAULT_PATH_IOS.substring_char(3, n)
}

} // verus!
