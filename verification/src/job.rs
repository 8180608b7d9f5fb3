//! Render-job validation and preparation: checks a job's contract at
//! submission time and fixes the resolved colors and the effective item
//! list before the job reaches the render worker.

use vstd::prelude::*;
use crate::compose::ItemAsset;
use crate::palette::BodyColors;
use crate::palette::ResolvedColors;
use crate::palette::THUMBNAIL_RGB;
use crate::palette::avatar_profile_colors;
use crate::palette::resolve_colors;
use crate::palette::thumbnail_colors;

verus! {

/// Job kind of a full-avatar render.
pub const JOB_FULL_AVATAR: u8 = 1;

/// Job kind of a single-item thumbnail render.
pub const JOB_THUMBNAIL: u8 = 2;

/// Why a render job is rejected at submission time.
#[derive(Debug, Clone, Copy, PartialEq, Eq, Structural)]
pub enum JobError {
    /// A thumbnail job was submitted with an empty item list.
    EmptyThumbnail,
    /// The job kind is neither the full-avatar nor the thumbnail kind.
    UnknownKind,
}

/// A validated job, ready for composition: the resolved colors and the
/// items that will be applied, in order.
#[derive(Debug)]
pub struct PreparedJob {
    pub colors: ResolvedColors,
    pub items: Vec<ItemAsset>,
}

/// Validates a job at submission time and prepares it for rendering. A
/// full-avatar job keeps its whole item list and renders with its profile
/// resolved by palette lookup (the default profile when none was given). A
/// thumbnail job must carry at least one item; it keeps only its first item
/// and renders with the fixed neutral palette. A thumbnail job without
/// items, and any unknown job kind, is rejected with a typed error.
pub fn prepare_job(job_type: u8, profile: Option<BodyColors>, items: Vec<ItemAsset>) -> (r: Result<
    PreparedJob,
    JobError,
>)
    ensures
        job_type == JOB_FULL_AVATAR ==> r is Ok && r->Ok_0.colors == avatar_profile_colors(
            profile,
        ) && r->Ok_0.items@ == items@,
        job_type == JOB_THUMBNAIL && items@.len() > 0 ==> r is Ok && r->Ok_0.colors
            == thumbnail_colors() && r->Ok_0.items@ == seq![items@[0]],
        job_type == JOB_THUMBNAIL && items@.len() == 0 ==> r == Result::<
            PreparedJob,
            JobError,
        >::Err(JobError::EmptyThumbnail),
        job_type != JOB_FULL_AVATAR && job_type != JOB_THUMBNAIL ==> r == Result::<
            PreparedJob,
            JobError,
        >::Err(JobError::UnknownKind),
{
    if job_type == JOB_FULL_AVATAR {
        let colors = match profile {
            Some(p) => resolve_colors(&p),
            None => resolve_colors(&BodyColors::default()),
        };
        Ok(PreparedJob { colors, items })
    } else if job_type == JOB_THUMBNAIL {
        if items.len() == 0 {
            return Err(JobError::EmptyThumbnail);
        }
        let mut items = items;
        items.truncate(1);
        proof {
            assert(items@ =~= seq![items@[0]]);
        }
        let colors = ResolvedColors {
            trso: THUMBNAIL_RGB,
            head: THUMBNAIL_RGB,
            lleg: THUMBNAIL_RGB,
            larm: THUMBNAIL_RGB,
            rarm: THUMBNAIL_RGB,
            rleg: THUMBNAIL_RGB,
        };
        Ok(PreparedJob { colors, items })
    } else {
        Err(JobError::UnknownKind)
    }
}

} // verus!
