//! Parsing of application bundle identifiers stored in balloon messages.

use vstd::prelude::*;

use crate::text::{find_char, lemma_find_from_bounds, lemma_split_from_nonempty, split, split_from};

verus! {

/// The application bundle identifier named by a balloon bundle identifier:
/// the identifier itself when it has no `:`, else its third `:`-separated
/// piece, and nothing when there is no third piece.
pub open spec fn spec_balloon_bundle_id(s: Seq<char>) -> Option<Seq<char>> {
    let parts = split(s, ':');
    if parts.len() == 1 {
        Some(s)
    } else if parts.len() >= 3 {
        Some(parts[2])
    } else {
        None
    }
}

/// Parse an App's Bundle ID out of a Balloon's Bundle ID
///
/// For example, a Bundle ID like `com.apple.messages.MSMessageExtensionBalloonPlugin:0000000000:com.apple.SafetyMonitorApp.SafetyMonitorMessages`
/// should get parsed into `com.apple.SafetyMonitorApp.SafetyMonitorMessages`.
pub fn parse_balloon_bundle_id(bundle_id: Option<&str>) -> (res: Option<&str>)
    ensures
        bundle_id is None ==> res is None,
        bundle_id matches Some(b) ==> match (spec_balloon_bundle_id(b@), res) {
            (Some(expected), Some(r)) => r@ == expected,
            (None, None) => true,
            _ => false,
        },
{
    match bundle_id {
        None => None,
        Some(b) => {
            let len = b.unicode_len();
            let first = find_char(b, ':', 0);
            proof {
                lemma_find_from_bounds(b@, ':', 0);
                lemma_split_from_nonempty(b@, ':', 0);
            }
            if first == len {
                // If there is only one part, use that
                assert(b@.subrange(0, len as int) =~= b@);
                return Some(b);
            }
            let second = find_char(b, ':', first + 1);
            proof {
                lemma_find_from_bounds(b@, ':', first + 1);
                lemma_split_from_nonempty(b@, ':', first + 1);
            }
            if second == len {
                // Will be None if there is no third part
                return None;
            }
            let third = find_char(b, ':', second + 1);
            proof {
                lemma_find_from_bounds(b@, ':', second + 1);
                lemma_split_from_nonempty(b@, ':', second + 1);
                let parts = split(b@, ':');
                let rest1 = split_from(b@, ':', first + 1);
                let rest2 = split_from(b@, ':', second + 1);
                assert(parts[1] == rest1[0]);
                assert(parts[2] == rest1[1]);
                assert(rest1[1] == rest2[0]);
            }
            Some(b.substring_char(second + 1, third))
        },
    }
}

} // verus!
