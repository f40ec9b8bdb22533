//! The guarantees of the capture flow, proved once over the session's
//! transition functions: what a finished run reports on each combination
//! of collaborator outcomes, and that the output location never moves.

use vstd::prelude::*;

use crate::display::{
    lemma_find_display_none,
    lemma_find_display_props,
    spec_contains_point,
    spec_find_display,
    DisplayBounds,
};
use crate::error::{lemma_message_nonempty, spec_message, CaptureError};
use crate::paths::spec_output_path;
use crate::session::{spec_on_capture, spec_on_displays, spec_on_save, CaptureSession, Phase};

verus! {

/// A whole invocation in which both collaborator steps succeed: the
/// display list arrives, the capture succeeds, the save succeeds.
pub open spec fn spec_successful_run(s: CaptureSession, ds: Seq<DisplayBounds>) -> CaptureSession {
    spec_on_save(
        spec_on_capture(spec_on_displays(s, ds), Result::<(), String>::Ok(())),
        Result::<(), String>::Ok(()),
    )
}

/// When some display contains the anchor point and both the capture and
/// the save succeed, the finished session reports exactly the output path
/// that was fixed when the session began.
pub proof fn lemma_successful_run_reports_path(s: CaptureSession, ds: Seq<DisplayBounds>)
    requires
        s.phase is SelectingDisplay,
        spec_find_display(ds, s.anchor_x as int, s.anchor_y as int) is Some,
    ensures
        ({
            let done = spec_successful_run(s, ds);
            &&& done.phase matches Phase::Done { outcome }
            &&& outcome == Result::<String, CaptureError>::Ok(s.output_path)
        }),
{
}

/// When no display contains the anchor point, the invocation ends at the
/// display-selection step with the display-not-found failure — never with
/// a path.
pub proof fn lemma_no_display_reports_not_found(s: CaptureSession, ds: Seq<DisplayBounds>)
    requires
        s.phase is SelectingDisplay,
        forall|j: int|
            0 <= j < ds.len() ==> !spec_contains_point(ds[j], s.anchor_x as int, s.anchor_y as int),
    ensures
        ({
            let done = spec_on_displays(s, ds);
            &&& done.phase matches Phase::Done { outcome }
            &&& outcome == Result::<String, CaptureError>::Err(CaptureError::DisplayNotFound)
            &&& spec_message(CaptureError::DisplayNotFound).len() > 0
        }),
{
    lemma_find_display_none(ds, s.anchor_x as int, s.anchor_y as int);
    lemma_message_nonempty(CaptureError::DisplayNotFound);
}

/// When the capture step fails, the invocation ends with a capture failure
/// whose message is non-empty, whatever detail the collaborator reported.
pub proof fn lemma_capture_failure_reports_error(s: CaptureSession, detail: String)
    requires
        s.phase is Capturing,
    ensures
        ({
            let done = spec_on_capture(s, Result::<(), String>::Err(detail));
            &&& done.phase matches Phase::Done { outcome }
            &&& outcome == Result::<String, CaptureError>::Err(CaptureError::CaptureFailed(detail))
            &&& spec_message(CaptureError::CaptureFailed(detail)).len() > 0
        }),
{
    lemma_message_nonempty(CaptureError::CaptureFailed(detail));
}

/// When the save step fails, the invocation ends with a save failure —
/// never with a success that points at a file that was not written.
pub proof fn lemma_save_failure_is_never_a_success(s: CaptureSession, detail: String)
    requires
        s.phase is Saving,
    ensures
        ({
            let done = spec_on_save(s, Result::<(), String>::Err(detail));
            &&& done.phase matches Phase::Done { outcome }
            &&& outcome == Result::<String, CaptureError>::Err(CaptureError::SaveFailed(detail))
            &&& spec_message(CaptureError::SaveFailed(detail)).len() > 0
        }),
{
    lemma_message_nonempty(CaptureError::SaveFailed(detail));
}

/// A run reports a path only when some display contains the anchor point:
/// together with the success lemma above, a path comes back exactly when a
/// display matched and both collaborator steps succeeded.
pub proof fn lemma_success_needs_anchor_display(s: CaptureSession, ds: Seq<DisplayBounds>)
    requires
        s.phase is SelectingDisplay,
        ({
            let done = spec_successful_run(s, ds);
            done.phase matches Phase::Done { outcome } && outcome is Ok
        }),
    ensures
        exists|j: int|
            0 <= j < ds.len() && spec_contains_point(ds[j], s.anchor_x as int, s.anchor_y as int),
{
    lemma_find_display_props(ds, s.anchor_x as int, s.anchor_y as int);
    match spec_find_display(ds, s.anchor_x as int, s.anchor_y as int) {
        Some(i) => {
            assert(spec_contains_point(ds[i], s.anchor_x as int, s.anchor_y as int));
        },
        None => {
            assert(false);
        },
    }
}

/// No step of a session ever moves the output path: whatever the displays
/// and whatever the collaborator outcomes, the path the session saves to
/// and reports is the one fixed when it began.
pub proof fn lemma_steps_preserve_output_path(
    s: CaptureSession,
    ds: Seq<DisplayBounds>,
    capture_outcome: Result<(), String>,
    save_outcome: Result<(), String>,
)
    ensures
        spec_on_displays(s, ds).output_path == s.output_path,
        spec_on_capture(s, capture_outcome).output_path == s.output_path,
        spec_on_save(s, save_outcome).output_path == s.output_path,
{
}

/// Two invocations begun from the same temporary directory target the very
/// same file: the location is fixed, so the second call writes over what
/// the first call wrote.
pub proof fn lemma_same_temp_dir_same_target(
    temp_dir: Seq<char>,
    first: CaptureSession,
    second: CaptureSession,
)
    requires
        first.output_path@ == spec_output_path(temp_dir),
        second.output_path@ == spec_output_path(temp_dir),
    ensures
        first.output_path@ == second.output_path@,
{
}

} // verus!
