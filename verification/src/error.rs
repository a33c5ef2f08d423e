//! Error kinds of the printing bridge.

use vstd::prelude::*;

verus! {

/// Every failure the bridge can report.
///
/// - `DecodeError`: a base64 payload is malformed.
/// - `IoError`: scratch storage could not be written or read.
/// - `DeviceError`: the printer is unreachable or the settings string is invalid.
/// - `DocumentError`: the source document cannot be read.
/// - `JobNotFound`: a job id is stale (already completed or removed).
/// - `PermissionError`: the caller lacks spooler privileges.
/// - `UnsupportedPlatform`: no native print backend exists on this host.
#[derive(Clone, Copy, Debug, PartialEq, Eq, Structural)]
pub enum PrintError {
    DecodeError,
    IoError,
    DeviceError,
    DocumentError,
    JobNotFound,
    PermissionError,
    UnsupportedPlatform,
}

impl PrintError {
    /// A short stable label for each error kind, for callers that
    /// serialize replies at the transport edge.
    pub fn label(&self) -> (r: &'static str)
        ensures
            r@ == self.spec_label(),
    {
        match self {
            PrintError::DecodeError => "decode error",
            PrintError::IoError => "io error",
            PrintError::DeviceError => "device error",
            PrintError::DocumentError => "document error",
            PrintError::JobNotFound => "job not found",
            PrintError::PermissionError => "permission error",
            PrintError::UnsupportedPlatform => "Unsupported OS",
        }
    }

    pub open spec fn spec_label(self) -> Seq<char> {
        match self {
            PrintError::DecodeError => "decode error"@,
            PrintError::IoError => "io error"@,
            PrintError::DeviceError => "device error"@,
            PrintError::DocumentError => "document error"@,
            PrintError::JobNotFound => "job not found"@,
            PrintError::PermissionError => "permission error"@,
            PrintError::UnsupportedPlatform => "Unsupported OS"@,
        }
    }
}

} // verus!
