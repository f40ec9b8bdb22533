//! The closed set of ways one capture invocation can fail, each with a
//! human-readable message that is never empty.

use vstd::prelude::*;

verus! {

/// Why a capture invocation failed. The detail string carried by the two
/// collaborator failures is the collaborator's own diagnostic text.
#[derive(Debug, PartialEq, Eq)]
pub enum CaptureError {
    /// No display contains the anchor point.
    DisplayNotFound,
    /// The collaborator failed while reading the display's pixels.
    CaptureFailed(String),
    /// The collaborator failed while writing the image file.
    SaveFailed(String),
}

/// The message reported for each failure: a fixed descriptive prefix,
/// followed by the collaborator's diagnostic detail where there is one.
pub open spec fn spec_message(e: CaptureError) -> Seq<char> {
    match e {
        CaptureError::DisplayNotFound => "no display contains the anchor point"@,
        CaptureError::CaptureFailed(d) => "capture failed: "@ + d@,
        CaptureError::SaveFailed(d) => "saving the screenshot failed: "@ + d@,
    }
}

/// Every failure carries a non-empty message: each prefix already has
/// characters of its own, whatever detail the collaborator reported.
pub proof fn lemma_message_nonempty(e: CaptureError)
    ensures
        spec_message(e).len() > 0,
{
    reveal_strlit("no display contains the anchor point");
    reveal_strlit("capture failed: ");
    reveal_strlit("saving the screenshot failed: ");
}

impl CaptureError {
    /// Render this failure as the message a caller sees.
    pub fn message(&self) -> (m: String)
        ensures
            m@ == spec_message(*self),
            m@.len() > 0,
    {
        proof {
            lemma_message_nonempty(*self);
        }
        match self {
            CaptureError::DisplayNotFound => "no display contains the anchor point".to_owned(),
            CaptureError::CaptureFailed(d) => {
                let mut m = "capture failed: ".to_owned();
                m.append(d.as_str());
                m
            },
            CaptureError::SaveFailed(d) => {
                let mut m = "saving the screenshot failed: ".to_owned();
                m.append(d.as_str());
                m
            },
        }
    }
}

} // verus!
