//! Job submitter: the decision layer around one native print call.
//!
//! Opening the document and rendering it to the printer's device context are
//! OS work done outside this crate; the outcome of that attempt is handed
//! back in here, and this module fixes what the caller is told and whether
//! the source file may be cleaned up. The policy is explicit: cleanup is
//! requested only when the caller asked for it *and* the submission
//! succeeded — a failed submission never deletes the document.

use vstd::prelude::*;

use crate::error::PrintError;

verus! {

/// One print request: an id for tracking, the document's path, an opaque
/// settings string for the OS print pipeline, and whether the source file
/// should be removed once the job is in.
#[derive(Clone, Debug)]
pub struct PrintOptions {
    pub id: String,
    pub path: String,
    pub print_setting: String,
    pub remove_after_print: bool,
}

/// How the native submission attempt ended, as reported by the OS call.
#[derive(Clone, Copy, Debug, PartialEq, Eq, Structural)]
pub enum SubmitOutcome {
    /// The spooler accepted the job.
    Accepted,
    /// The source document could not be read.
    DocumentUnreadable,
    /// The printer is offline or the settings string was rejected.
    DeviceUnavailable,
    /// The caller lacks spooler privileges.
    PermissionDenied,
}

/// What the bridge does after the attempt: the result it reports, and
/// whether it goes on to delete the source document.
#[derive(Clone, Copy, Debug)]
pub struct SubmitDecision {
    pub result: Result<(), PrintError>,
    pub cleanup_file: bool,
}

/// The error each failed outcome is reported as.
pub open spec fn spec_submit_error(o: SubmitOutcome) -> PrintError {
    match o {
        SubmitOutcome::Accepted => PrintError::DeviceError,  // unused: success has no error
        SubmitOutcome::DocumentUnreadable => PrintError::DocumentError,
        SubmitOutcome::DeviceUnavailable => PrintError::DeviceError,
        SubmitOutcome::PermissionDenied => PrintError::PermissionError,
    }
}

/// Decides the reply and the cleanup step for one submission attempt.
///
/// Succeeds exactly when the spooler accepted the job; each failure outcome
/// maps to its own error. Cleanup is requested exactly when the caller set
/// `remove_after_print` and the submission succeeded: a document whose
/// printing failed is never deleted.
pub fn submit_decision(options: &PrintOptions, outcome: SubmitOutcome) -> (r: SubmitDecision)
    ensures
        r.result is Ok <==> outcome == SubmitOutcome::Accepted,
        r.result is Err ==> r.result->Err_0 == spec_submit_error(outcome),
        r.cleanup_file <==> (options.remove_after_print && outcome == SubmitOutcome::Accepted),
{
    match outcome {
        SubmitOutcome::Accepted => SubmitDecision {
            result: Ok(()),
            cleanup_file: options.remove_after_print,
        },
        SubmitOutcome::DocumentUnreadable => SubmitDecision {
            result: Err(PrintError::DocumentError),
            cleanup_file: false,
        },
        SubmitOutcome::DeviceUnavailable => SubmitDecision {
            result: Err(PrintError::DeviceError),
            cleanup_file: false,
        },
        SubmitOutcome::PermissionDenied => SubmitDecision {
            result: Err(PrintError::PermissionError),
            cleanup_file: false,
        },
    }
}

} // verus!
