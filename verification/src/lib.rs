//! Verified decision logic for a small screen-capture command.
//!
//! The library owns everything the command decides: which display contains
//! the anchor point, which file each image is written to, how collaborator
//! failures are reported, and the step-by-step flow of one capture
//! invocation. The screen-capture collaborator itself (display enumeration,
//! pixel capture, file writing) runs outside the library; a thin shell
//! performs those actions and feeds their outcomes back into the verified
//! session.

pub mod display;
pub mod error;
pub mod laws;
pub mod paths;
pub mod report;
pub mod session;

pub use display::DisplayBounds;
pub use display::find_display_at_point;
pub use error::CaptureError;
pub use session::CaptureAction;
pub use session::CaptureSession;
pub use session::Phase;
