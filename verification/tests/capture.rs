//! Tests of the capture library: display selection, path construction,
//! failure reporting, and the step-by-step capture session.

use screen_capture::display::{find_display_at_point, DisplayBounds, ANCHOR_X, ANCHOR_Y};
use screen_capture::error::CaptureError;
use screen_capture::paths::{
    capture_output_path, format_u32, full_frame_path, point_capture_path, region_path,
};
use screen_capture::report::{plan_diagnostic_captures, summarize_outcomes, Region};
use screen_capture::session::{CaptureAction, CaptureSession};

fn display(id: u32, x: i32, y: i32, width: u32, height: u32) -> DisplayBounds {
    DisplayBounds { id, x, y, width, height }
}

#[test]
fn contains_point_half_open_rectangle() {
    let d = display(1, 0, 0, 1920, 1080);
    assert!(d.contains_point(0, 0));
    assert!(d.contains_point(100, 100));
    assert!(d.contains_point(1919, 1079));
    assert!(!d.contains_point(1920, 1079));
    assert!(!d.contains_point(1919, 1080));
    assert!(!d.contains_point(-1, 0));
}

#[test]
fn contains_point_negative_origin() {
    let d = display(2, -1920, 0, 1920, 1080);
    assert!(d.contains_point(-1920, 0));
    assert!(d.contains_point(-1, 1079));
    assert!(!d.contains_point(0, 0));
}

#[test]
fn find_display_empty_list() {
    assert_eq!(find_display_at_point(&vec![], 100, 100), None);
}

#[test]
fn find_display_returns_first_hit() {
    let ds = vec![
        display(1, 5000, 5000, 100, 100),
        display(2, 0, 0, 1920, 1080),
        display(3, 0, 0, 1920, 1080),
    ];
    assert_eq!(find_display_at_point(&ds, 100, 100), Some(1));
}

#[test]
fn find_display_no_hit() {
    let ds = vec![display(1, 0, 0, 50, 50), display(2, 200, 200, 50, 50)];
    assert_eq!(find_display_at_point(&ds, 100, 100), None);
}

#[test]
fn decimal_rendering() {
    assert_eq!(format_u32(0), "0");
    assert_eq!(format_u32(7), "7");
    assert_eq!(format_u32(10), "10");
    assert_eq!(format_u32(12345), "12345");
    assert_eq!(format_u32(u32::MAX), "4294967295");
}

#[test]
fn diagnostic_paths() {
    assert_eq!(full_frame_path(42), "target/42.png");
    assert_eq!(region_path(42), "target/42-2.png");
    assert_eq!(point_capture_path(), "target/capture_display_with_point.png");
}

#[test]
fn output_path_inserts_separator() {
    assert_eq!(capture_output_path("/tmp"), "/tmp/screenshot.png");
    assert_eq!(capture_output_path(""), "/screenshot.png");
}

#[test]
fn output_path_keeps_existing_separator() {
    assert_eq!(capture_output_path("/tmp/"), "/tmp/screenshot.png");
}

#[test]
fn error_messages_are_descriptive() {
    assert_eq!(
        CaptureError::DisplayNotFound.message(),
        "no display contains the anchor point"
    );
    assert_eq!(
        CaptureError::CaptureFailed(String::from("permission denied")).message(),
        "capture failed: permission denied"
    );
    assert_eq!(
        CaptureError::SaveFailed(String::from("disk full")).message(),
        "saving the screenshot failed: disk full"
    );
}

#[test]
fn error_messages_never_empty() {
    assert!(!CaptureError::DisplayNotFound.message().is_empty());
    assert!(!CaptureError::CaptureFailed(String::new()).message().is_empty());
    assert!(!CaptureError::SaveFailed(String::new()).message().is_empty());
}

#[test]
fn successful_invocation_reports_output_path() {
    // A single-display system whose display contains the anchor point.
    let ds = vec![display(1, 0, 0, 1920, 1080)];
    let mut session = CaptureSession::begin(ANCHOR_X, ANCHOR_Y, "/tmp");
    let action = session.on_displays(&ds);
    assert_eq!(action, CaptureAction::CaptureDisplay { display: 0 });
    let action = session.on_capture(Ok(()));
    assert_eq!(
        action,
        CaptureAction::SaveImage { path: String::from("/tmp/screenshot.png") }
    );
    session.on_save(Ok(()));
    assert!(session.is_done());
    assert_eq!(session.into_result(), Ok(String::from("/tmp/screenshot.png")));
}

#[test]
fn no_display_at_anchor_is_a_failure() {
    let ds = vec![display(1, 2000, 2000, 100, 100)];
    let mut session = CaptureSession::begin(ANCHOR_X, ANCHOR_Y, "/tmp");
    let action = session.on_displays(&ds);
    assert_eq!(action, CaptureAction::Finish);
    assert!(session.is_done());
    let result = session.into_result();
    let message = result.expect_err("a missing display must not yield a path");
    assert_eq!(message, "no display contains the anchor point");
    assert!(!message.is_empty());
}

#[test]
fn capture_failure_carries_a_message() {
    let ds = vec![display(1, 0, 0, 1920, 1080)];
    let mut session = CaptureSession::begin(ANCHOR_X, ANCHOR_Y, "/tmp");
    session.on_displays(&ds);
    let action = session.on_capture(Err(String::from("display disconnected")));
    assert_eq!(action, CaptureAction::Finish);
    let message = session.into_result().expect_err("a failed capture must not yield a path");
    assert_eq!(message, "capture failed: display disconnected");
    assert!(!message.is_empty());
}

#[test]
fn save_failure_is_never_a_success() {
    let ds = vec![display(1, 0, 0, 1920, 1080)];
    let mut session = CaptureSession::begin(ANCHOR_X, ANCHOR_Y, "/tmp");
    session.on_displays(&ds);
    session.on_capture(Ok(()));
    session.on_save(Err(String::from("read-only file system")));
    let result = session.into_result();
    assert!(result.is_err());
    assert_eq!(
        result.unwrap_err(),
        "saving the screenshot failed: read-only file system"
    );
}

#[test]
fn two_invocations_target_the_same_file() {
    let ds = vec![display(1, 0, 0, 1920, 1080)];
    let mut paths: Vec<String> = Vec::new();
    for _ in 0..2 {
        let mut session = CaptureSession::begin(ANCHOR_X, ANCHOR_Y, "/tmp");
        session.on_displays(&ds);
        let action = session.on_capture(Ok(()));
        match action {
            CaptureAction::SaveImage { path } => paths.push(path),
            other => panic!("expected a save action, got {other:?}"),
        }
        session.on_save(Ok(()));
        assert_eq!(session.into_result(), Ok(String::from("/tmp/screenshot.png")));
    }
    assert_eq!(paths[0], paths[1]);
}

#[test]
fn diagnostic_plan_for_one_display() {
    let ds = vec![display(7, 0, 0, 1920, 1080)];
    let plan = plan_diagnostic_captures(&ds, ANCHOR_X, ANCHOR_Y);
    assert_eq!(plan.per_display.len(), 1);
    let entry = &plan.per_display[0];
    assert_eq!(entry.display, 0);
    assert_eq!(entry.full_frame_path, "target/7.png");
    assert_eq!(entry.region_path, "target/7-2.png");
    assert_eq!(entry.region, Region { x: 300, y: 300, width: 300, height: 300 });
    let point = plan.point_capture.expect("the anchor display must be planned");
    assert_eq!(point.display, 0);
    assert_eq!(point.path, "target/capture_display_with_point.png");
    assert_eq!(point.region, Region { x: 300, y: 300, width: 300, height: 300 });
}

#[test]
fn diagnostic_plan_without_anchor_display() {
    let ds = vec![display(3, 500, 500, 100, 100), display(9, 700, 700, 100, 100)];
    let plan = plan_diagnostic_captures(&ds, ANCHOR_X, ANCHOR_Y);
    assert_eq!(plan.per_display.len(), 2);
    assert_eq!(plan.per_display[0].full_frame_path, "target/3.png");
    assert_eq!(plan.per_display[1].region_path, "target/9-2.png");
    assert!(plan.point_capture.is_none());
}

#[test]
fn summary_accounts_for_every_attempt() {
    let summary = summarize_outcomes(&vec![true, false, true, true]);
    assert_eq!(summary.attempted, 4);
    assert_eq!(summary.succeeded, 3);
    assert_eq!(summary.failed, 1);
}

#[test]
fn summary_of_no_attempts() {
    let summary = summarize_outcomes(&vec![]);
    assert_eq!(summary.attempted, 0);
    assert_eq!(summary.succeeded, 0);
    assert_eq!(summary.failed, 0);
}
