//! Verified core of a printing bridge: it exposes a host's print subsystem
//! (printer enumeration, job submission, job-queue control) plus a small
//! temp-file manager through a narrow command surface.
//!
//! All operating-system interaction (the spooler, the filesystem, device
//! contexts) lives outside this crate; here stand the decisions and data
//! transformations around those calls, each with a proved contract:
//! base64 decoding of payloads, name filtering of printer snapshots, the
//! job-queue state machine, the cleanup policy of submission, and the
//! platform gate that answers `Unsupported OS` where no native backend runs.

pub mod base64;
pub mod commands;
pub mod error;
pub mod jobs;
pub mod printers;
pub mod submit;
pub mod temp;
