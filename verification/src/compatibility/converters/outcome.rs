//! What happens to an attachment once its conversion was tried.

use vstd::prelude::*;

use crate::compatibility::models::{AudioType, ImageType, VideoType};
use crate::media_type::MediaType;

verus! {

/// What to do after one attempt of a conversion that can be tried several ways
#[derive(Debug, PartialEq, Eq, Structural)]
pub enum AttemptOutcome {
    /// Run the attempt at this position next
    TryNext(usize),
    /// The conversion is over; holds whether it succeeded
    Finished(bool),
}

/// What follows attempt `attempt` of `total` attempts, given whether it `succeeded`.
pub open spec fn spec_after_attempt(attempt: int, total: int, succeeded: bool) -> AttemptOutcome {
    if succeeded {
        AttemptOutcome::Finished(true)
    } else if attempt + 1 < total {
        AttemptOutcome::TryNext((attempt + 1) as usize)
    } else {
        AttemptOutcome::Finished(false)
    }
}

/// What follows attempt `attempt` of `total` attempts: the conversion succeeds as soon
/// as an attempt succeeds, fails when the last attempt fails, and otherwise runs the
/// next attempt.
pub fn after_attempt(attempt: usize, total: usize, succeeded: bool) -> (res: AttemptOutcome)
    requires
        attempt < total,
    ensures
        res == spec_after_attempt(attempt as int, total as int, succeeded),
        succeeded ==> res == AttemptOutcome::Finished(true),
        !succeeded && attempt + 1 < total ==> res == AttemptOutcome::TryNext(
            (attempt + 1) as usize,
        ),
        !succeeded && attempt + 1 == total ==> res == AttemptOutcome::Finished(false),
{
    if succeeded {
        AttemptOutcome::Finished(true)
    } else if attempt + 1 < total {
        AttemptOutcome::TryNext(attempt + 1)
    } else {
        AttemptOutcome::Finished(false)
    }
}

/// Whether a conversion succeeds when its attempts are run from position `i`, the
/// attempts giving `outcomes`.
pub open spec fn conversion_result(outcomes: Seq<bool>, i: int) -> bool
    decreases outcomes.len() - i,
{
    if i < 0 || i >= outcomes.len() {
        false
    } else {
        match spec_after_attempt(i, outcomes.len() as int, outcomes[i]) {
            AttemptOutcome::Finished(r) => r,
            AttemptOutcome::TryNext(j) => if j > i {
                conversion_result(outcomes, j as int)
            } else {
                false
            },
        }
    }
}

/// What becomes of an attachment once its conversion was tried, or not
#[derive(Debug, PartialEq, Eq)]
pub struct CopyOutcome {
    /// The extension the destination path takes, if it changes
    pub extension: Option<&'static str>,
    /// Whether the file is copied as it is
    pub copy_raw: bool,
    /// The type the attachment is reported as, when it was converted
    pub converted: Option<MediaType<'static>>,
}

/// The outcome for an image whose conversion into `output` (if any) `converted` or not.
/// The destination takes the output's extension before the conversion runs, so the
/// fallback copy keeps it.
pub fn image_copy_outcome(output: &Option<ImageType>, converted: bool) -> (res: CopyOutcome)
    ensures
        match output {
            Some(t) => {
                &&& res.extension matches Some(e) && e@ == t.spec_to_str()
                &&& res.copy_raw == !converted
                &&& converted ==> (res.converted matches Some(MediaType::Image(s)) && s@
                    == t.spec_to_str())
                &&& !converted ==> res.converted is None
            },
            None => res.extension is None && res.copy_raw && res.converted is None,
        },
{
    match output {
        Some(t) => {
            let ext = t.to_str();
            CopyOutcome {
                extension: Some(ext),
                copy_raw: !converted,
                converted: if converted {
                    Some(MediaType::Image(ext))
                } else {
                    None
                },
            }
        },
        None => CopyOutcome { extension: None, copy_raw: true, converted: None },
    }
}

/// The outcome for an audio file whose conversion into `output` (if any) `converted`
/// or not. The destination takes the output's extension before the conversion runs,
/// so the fallback copy keeps it.
pub fn audio_copy_outcome(output: &Option<AudioType>, converted: bool) -> (res: CopyOutcome)
    ensures
        match output {
            Some(t) => {
                &&& res.extension matches Some(e) && e@ == t.spec_to_str()
                &&& res.copy_raw == !converted
                &&& converted ==> (res.converted matches Some(MediaType::Audio(s)) && s@
                    == t.spec_to_str())
                &&& !converted ==> res.converted is None
            },
            None => res.extension is None && res.copy_raw && res.converted is None,
        },
{
    match output {
        Some(t) => {
            let ext = t.to_str();
            CopyOutcome {
                extension: Some(ext),
                copy_raw: !converted,
                converted: if converted {
                    Some(MediaType::Audio(ext))
                } else {
                    None
                },
            }
        },
        None => CopyOutcome { extension: None, copy_raw: true, converted: None },
    }
}

/// The outcome for a video whose conversion into `output` (if any) `converted` or not.
/// The conversion writes beside the destination, which takes the output's extension
/// only when the conversion succeeded; the fallback copy goes to the original path.
pub fn video_copy_outcome(output: &Option<VideoType>, converted: bool) -> (res: CopyOutcome)
    ensures
        match output {
            Some(t) => {
                &&& converted ==> (res.extension matches Some(e) && e@ == t.spec_to_str())
                &&& !converted ==> res.extension is None
                &&& res.copy_raw == !converted
                &&& converted ==> (res.converted matches Some(MediaType::Video(s)) && s@
                    == t.spec_to_str())
                &&& !converted ==> res.converted is None
            },
            None => res.extension is None && res.copy_raw && res.converted is None,
        },
{
    match output {
        Some(t) => {
            let ext = t.to_str();
            if converted {
                CopyOutcome {
                    extension: Some(ext),
                    copy_raw: false,
                    converted: Some(MediaType::Video(ext)),
                }
            } else {
                CopyOutcome { extension: None, copy_raw: true, converted: None }
            }
        },
        None => CopyOutcome { extension: None, copy_raw: true, converted: None },
    }
}

} // verus!
