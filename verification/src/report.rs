//! The diagnostic routine's plan and its summary. The plan lists, before
//! any collaborator work happens, every capture the routine will attempt
//! and the path each image goes to; the summary counts how many of those
//! attempts succeeded, so one failing display no longer hides the rest.

use vstd::prelude::*;

use crate::display::{spec_find_display, find_display_at_point, DisplayBounds};
use crate::paths::{
    full_frame_path,
    point_capture_path,
    region_path,
    spec_full_frame_path,
    spec_region_path,
};

verus! {

/// Offset of the fixed region the diagnostic routine captures.
pub const DIAGNOSTIC_REGION_OFFSET: i32 = 300;

/// Side length of the fixed region the diagnostic routine captures.
pub const DIAGNOSTIC_REGION_SIZE: u32 = 300;

/// A rectangular sub-area of a display, by offset and size.
#[derive(Clone, Copy, Debug, PartialEq, Eq, Structural)]
pub struct Region {
    /// x offset inside the display.
    pub x: i32,
    /// y offset inside the display.
    pub y: i32,
    /// Width of the region.
    pub width: u32,
    /// Height of the region.
    pub height: u32,
}

/// The fixed region the diagnostic routine captures from each display.
pub open spec fn spec_diagnostic_region() -> Region {
    Region {
        x: DIAGNOSTIC_REGION_OFFSET,
        y: DIAGNOSTIC_REGION_OFFSET,
        width: DIAGNOSTIC_REGION_SIZE,
        height: DIAGNOSTIC_REGION_SIZE,
    }
}

/// The two captures the diagnostic routine attempts for one display: the
/// full frame, then the fixed region, each with its own file path.
pub struct DisplayPlan {
    /// Index of the display in the enumerated list.
    pub display: usize,
    /// Where the full frame goes.
    pub full_frame_path: String,
    /// The region captured after the full frame.
    pub region: Region,
    /// Where the region capture goes.
    pub region_path: String,
}

/// The final capture of the diagnostic routine: the fixed region of the
/// display that contains the anchor point.
pub struct PointPlan {
    /// Index of the anchor display in the enumerated list.
    pub display: usize,
    /// The region captured.
    pub region: Region,
    /// Where the image goes.
    pub path: String,
}

/// Everything the diagnostic routine will attempt, decided up front.
pub struct DiagnosticPlan {
    /// Two captures per enumerated display, in enumeration order.
    pub per_display: Vec<DisplayPlan>,
    /// The anchor-display capture, when a display contains the anchor.
    pub point_capture: Option<PointPlan>,
}

/// Build the diagnostic plan for the enumerated displays: for each display
/// its full frame to `target/<id>.png` and the fixed region to
/// `target/<id>-2.png`, and, when some display contains the anchor point,
/// that display's fixed region to `target/capture_display_with_point.png`.
pub fn plan_diagnostic_captures(
    displays: &Vec<DisplayBounds>,
    anchor_x: i32,
    anchor_y: i32,
) -> (plan: DiagnosticPlan)
    ensures
        plan.per_display.len() == displays.len(),
        forall|k: int|
            0 <= k < displays.len() ==> {
                &&& (#[trigger] plan.per_display[k]).display == k
                &&& plan.per_display[k].full_frame_path@ == spec_full_frame_path(
                    displays[k].id as int,
                )
                &&& plan.per_display[k].region == spec_diagnostic_region()
                &&& plan.per_display[k].region_path@ == spec_region_path(displays[k].id as int)
            },
        match spec_find_display(displays@, anchor_x as int, anchor_y as int) {
            Some(i) => {
                &&& plan.point_capture matches Some(pp)
                &&& pp.display == i as usize
                &&& pp.region == spec_diagnostic_region()
                &&& pp.path@ == "target/capture_display_with_point.png"@
            },
            None => plan.point_capture is None,
        },
{
    let region = Region {
        x: DIAGNOSTIC_REGION_OFFSET,
        y: DIAGNOSTIC_REGION_OFFSET,
        width: DIAGNOSTIC_REGION_SIZE,
        height: DIAGNOSTIC_REGION_SIZE,
    };
    let mut per_display: Vec<DisplayPlan> = Vec::new();
    let mut k: usize = 0;
    while k < displays.len()
        invariant
            k <= displays.len(),
            per_display.len() == k,
            region == spec_diagnostic_region(),
            forall|j: int|
                0 <= j < k ==> {
                    &&& (#[trigger] per_display[j]).display == j
                    &&& per_display[j].full_frame_path@ == spec_full_frame_path(
                        displays@[j].id as int,
                    )
                    &&& per_display[j].region == spec_diagnostic_region()
                    &&& per_display[j].region_path@ == spec_region_path(displays@[j].id as int)
                },
        decreases displays.len() - k,
    {
        let id = displays[k].id;
        per_display.push(
            DisplayPlan {
                display: k,
                full_frame_path: full_frame_path(id),
                region,
                region_path: region_path(id),
            },
        );
        k = k + 1;
    }
    let point_capture = match find_display_at_point(displays, anchor_x, anchor_y) {
        Some(i) => Some(PointPlan { display: i, region, path: point_capture_path() }),
        None => None,
    };
    DiagnosticPlan { per_display, point_capture }
}

/// How many entries of the sequence are `true`.
pub open spec fn spec_count_true(s: Seq<bool>) -> int
    decreases s.len(),
{
    if s.len() == 0 {
        0
    } else {
        spec_count_true(s.drop_last()) + if s.last() {
            1int
        } else {
            0int
        }
    }
}

/// How the diagnostic routine went: every attempt is accounted for, as a
/// success or as a failure.
#[derive(Clone, Copy, Debug, PartialEq, Eq, Structural)]
pub struct DiagnosticSummary {
    /// How many captures were attempted.
    pub attempted: usize,
    /// How many of them succeeded.
    pub succeeded: usize,
    /// How many of them failed.
    pub failed: usize,
}

/// Summarize the per-attempt outcomes of the diagnostic routine.
pub fn summarize_outcomes(outcomes: &Vec<bool>) -> (s: DiagnosticSummary)
    ensures
        s.attempted == outcomes.len(),
        s.succeeded == spec_count_true(outcomes@),
        s.failed == s.attempted - s.succeeded,
{
    let mut succeeded: usize = 0;
    let mut k: usize = 0;
    while k < outcomes.len()
        invariant
            k <= outcomes.len(),
            succeeded == spec_count_true(outcomes@.take(k as int)),
            succeeded <= k,
        decreases outcomes.len() - k,
    {
        proof {
            assert(outcomes@.take(k as int + 1).drop_last() =~= outcomes@.take(k as int));
            assert(outcomes@.take(k as int + 1).last() == outcomes@[k as int]);
        }
        if outcomes[k] {
            succeeded = succeeded + 1;
        }
        k = k + 1;
    }
    proof {
        assert(outcomes@.take(outcomes@.len() as int) =~= outcomes@);
    }
    DiagnosticSummary {
        attempted: outcomes.len(),
        succeeded,
        failed: outcomes.len() - succeeded,
    }
}

} // verus!
