//! One capture invocation, as a step-by-step session. The session owns
//! every decision of the flow — which display to capture, where to save,
//! what to report — while the shell around it performs the collaborator
//! actions (enumerate, capture, save) and feeds their outcomes back in.

use vstd::prelude::*;

use crate::display::{spec_find_display, find_display_at_point, DisplayBounds};
use crate::error::{spec_message, CaptureError};
use crate::paths::{capture_output_path, spec_output_path};

verus! {

/// Where a session stands: which collaborator action it is waiting on, or
/// the outcome it finished with.
#[derive(Debug, PartialEq, Eq)]
pub enum Phase {
    /// Waiting for the list of displays.
    SelectingDisplay,
    /// Waiting for the capture of the selected display.
    Capturing { display: usize },
    /// Waiting for the image to be written to the output path.
    Saving { display: usize },
    /// Finished, successfully or not.
    Done { outcome: Result<String, CaptureError> },
}

/// What the shell is asked to do next.
#[derive(Debug, PartialEq, Eq)]
pub enum CaptureAction {
    /// Capture the full frame of the display at this index.
    CaptureDisplay { display: usize },
    /// Write the captured image to this path.
    SaveImage { path: String },
    /// Nothing is left to do; collect the session's outcome.
    Finish,
}

/// The state of one capture invocation.
pub struct CaptureSession {
    /// x coordinate of the anchor point that selects the display.
    pub anchor_x: i32,
    /// y coordinate of the anchor point that selects the display.
    pub anchor_y: i32,
    /// The fixed path this invocation writes to.
    pub output_path: String,
    /// Where the flow stands.
    pub phase: Phase,
}

/// The session after the display list arrives: capture the first display
/// that contains the anchor point, or fail when none does.
pub open spec fn spec_on_displays(s: CaptureSession, ds: Seq<DisplayBounds>) -> CaptureSession {
    match spec_find_display(ds, s.anchor_x as int, s.anchor_y as int) {
        Some(i) => CaptureSession { phase: Phase::Capturing { display: i as usize }, ..s },
        None => CaptureSession {
            phase: Phase::Done { outcome: Err(CaptureError::DisplayNotFound) },
            ..s
        },
    }
}

/// The session after the capture outcome arrives: save on success, fail
/// with the collaborator's detail otherwise.
pub open spec fn spec_on_capture(s: CaptureSession, r: Result<(), String>) -> CaptureSession {
    match s.phase {
        Phase::Capturing { display } => match r {
            Ok(_) => CaptureSession { phase: Phase::Saving { display }, ..s },
            Err(d) => CaptureSession {
                phase: Phase::Done { outcome: Err(CaptureError::CaptureFailed(d)) },
                ..s
            },
        },
        _ => s,
    }
}

/// The session after the save outcome arrives: report the output path on
/// success, fail with the collaborator's detail otherwise.
pub open spec fn spec_on_save(s: CaptureSession, r: Result<(), String>) -> CaptureSession {
    match s.phase {
        Phase::Saving { .. } => match r {
            Ok(_) => CaptureSession { phase: Phase::Done { outcome: Ok(s.output_path) }, ..s },
            Err(d) => CaptureSession {
                phase: Phase::Done { outcome: Err(CaptureError::SaveFailed(d)) },
                ..s
            },
        },
        _ => s,
    }
}

impl CaptureSession {
    /// Start a capture invocation: the display is not yet selected, and the
    /// output path is fixed from the temporary directory once and for all.
    pub fn begin(anchor_x: i32, anchor_y: i32, temp_dir: &str) -> (s: Self)
        ensures
            s.anchor_x == anchor_x,
            s.anchor_y == anchor_y,
            s.output_path@ == spec_output_path(temp_dir@),
            s.phase is SelectingDisplay,
    {
        CaptureSession {
            anchor_x,
            anchor_y,
            output_path: capture_output_path(temp_dir),
            phase: Phase::SelectingDisplay,
        }
    }

    /// Feed in the enumerated displays; the returned action asks the shell
    /// to capture the selected display, or to finish when none matched.
    pub fn on_displays(&mut self, displays: &Vec<DisplayBounds>) -> (a: CaptureAction)
        requires
            old(self).phase is SelectingDisplay,
        ensures
            *final(self) == spec_on_displays(*old(self), displays@),
            match spec_find_display(
                displays@,
                old(self).anchor_x as int,
                old(self).anchor_y as int,
            ) {
                Some(i) => a == (CaptureAction::CaptureDisplay { display: i as usize }),
                None => a is Finish,
            },
    {
        match find_display_at_point(displays, self.anchor_x, self.anchor_y) {
            Some(i) => {
                self.phase = Phase::Capturing { display: i };
                CaptureAction::CaptureDisplay { display: i }
            },
            None => {
                self.phase = Phase::Done { outcome: Err(CaptureError::DisplayNotFound) };
                CaptureAction::Finish
            },
        }
    }

    /// Feed in the capture outcome; the returned action asks the shell to
    /// save the image to the session's output path, or to finish.
    pub fn on_capture(&mut self, outcome: Result<(), String>) -> (a: CaptureAction)
        requires
            old(self).phase is Capturing,
        ensures
            *final(self) == spec_on_capture(*old(self), outcome),
            match outcome {
                Ok(_) => a == (CaptureAction::SaveImage { path: old(self).output_path }),
                Err(_) => a is Finish,
            },
    {
        let display = match self.phase {
            Phase::Capturing { display } => display,
            _ => 0,  // unreachable under the precondition
        };
        match outcome {
            Ok(_) => {
                self.phase = Phase::Saving { display };
                CaptureAction::SaveImage { path: self.output_path.clone() }
            },
            Err(d) => {
                self.phase = Phase::Done { outcome: Err(CaptureError::CaptureFailed(d)) };
                CaptureAction::Finish
            },
        }
    }

    /// Feed in the save outcome; the session is finished afterwards.
    pub fn on_save(&mut self, outcome: Result<(), String>)
        requires
            old(self).phase is Saving,
        ensures
            *final(self) == spec_on_save(*old(self), outcome),
            final(self).phase is Done,
    {
        match outcome {
            Ok(_) => {
                self.phase = Phase::Done { outcome: Ok(self.output_path.clone()) };
            },
            Err(d) => {
                self.phase = Phase::Done { outcome: Err(CaptureError::SaveFailed(d)) };
            },
        }
    }

    /// Whether the session has finished.
    pub fn is_done(&self) -> (r: bool)
        ensures
            r == (self.phase is Done),
    {
        match self.phase {
            Phase::Done { .. } => true,
            _ => false,
        }
    }

    /// The outcome a caller sees: the output path on success, or the
    /// failure's message.
    pub fn into_result(self) -> (r: Result<String, String>)
        requires
            self.phase is Done,
        ensures
            match self.phase {
                Phase::Done { outcome } => match outcome {
                    Ok(p) => r == Result::<String, String>::Ok(p),
                    Err(e) => r matches Err(m) && m@ == spec_message(e) && m@.len() > 0,
                },
                _ => false,
            },
    {
        match self.phase {
            Phase::Done { outcome } => match outcome {
                Ok(p) => Ok(p),
                Err(e) => Err(e.message()),
            },
            // unreachable under the precondition
            _ => Err(CaptureError::DisplayNotFound.message()),
        }
    }
}

} // verus!
