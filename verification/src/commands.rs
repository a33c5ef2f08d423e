//! Command surface: the narrow dispatcher between the frontend's command
//! names and the operations of this bridge.
//!
//! A capability value, chosen once at startup by platform detection, says
//! whether a native print backend exists. Planning a command against it
//! yields either the one OS action to perform or — for every native-backed
//! command on a host without a backend — the immediate `Unsupported OS`
//! reply; the temp-file commands are platform-independent and never gated.

use vstd::prelude::*;

use crate::jobs::JobCommand;
use crate::printers::PrinterDirectory;
use crate::printers::PrinterInfo;
use crate::printers::spec_by_name;
use crate::submit::PrintOptions;
use crate::submit::SubmitDecision;
use crate::submit::SubmitOutcome;
use crate::submit::spec_submit_error;
use crate::submit::submit_decision;

verus! {

/// Whether a native print backend exists on this host; decided once at
/// startup and injected here, so no operation asks the OS again.
#[derive(Clone, Copy, Debug, PartialEq, Eq, Structural)]
pub enum Backend {
    Native,
    Unavailable,
}

/// The externally invokable commands, each with its inputs.
#[derive(Debug)]
pub enum Command {
    CreateTempFile { buffer_data: Vec<u8>, filename: String },
    RemoveTempFile { filename: String },
    GetPrinters,
    GetPrintersByName { printername: String },
    PrintPdf { options: PrintOptions },
    GetJobs { printername: String },
    GetJobsById { printername: String, job_id: u64 },
    ResumeJob { printername: String, job_id: u64 },
    RestartJob { printername: String, job_id: u64 },
    PauseJob { printername: String, job_id: u64 },
    RemoveJob { printername: String, job_id: u64 },
}

/// Every command but the two temp-file ones needs the native backend.
pub open spec fn is_native_command(c: Command) -> bool {
    !(c is CreateTempFile || c is RemoveTempFile)
}

/// What the host must do next for one command: answer the sentinel at once,
/// or perform the one named OS interaction and feed its result back to the
/// matching operation of this crate.
#[derive(Debug)]
pub enum Action {
    /// Answer the `Unsupported OS` sentinel without touching the OS.
    ReplyUnsupported,
    /// Decode and store the payload (`TempStore::create`), then write the
    /// file it returns.
    StoreTempFile { buffer_data: Vec<u8>, filename: String },
    /// Drop the name from the store (`TempStore::remove`), deleting the file.
    DeleteTempFile { filename: String },
    /// Enumerate printers from the spooler; reply with the snapshot,
    /// filtered by `PrinterDirectory::list_by_name` when a name is given.
    FetchPrinters { name_filter: Option<String> },
    /// Render the document to the printer; feed the outcome to
    /// `submit_decision`.
    SubmitPrint { options: PrintOptions },
    /// Read the printer's queue; reply with the snapshot.
    FetchJobs { printername: String },
    /// Read the printer's queue; reply through `JobQueue::get_job`.
    FetchJob { printername: String, job_id: u64 },
    /// Read the printer's queue and apply `JobQueue::control_job`.
    ControlJob { printername: String, job_id: u64, command: JobCommand },
}

/// The action `plan` picks for one command against one backend capability.
pub open spec fn spec_plan(backend: Backend, c: Command) -> Action {
    if backend is Unavailable && is_native_command(c) {
        Action::ReplyUnsupported
    } else {
        match c {
            Command::CreateTempFile { buffer_data, filename } => Action::StoreTempFile {
                buffer_data,
                filename,
            },
            Command::RemoveTempFile { filename } => Action::DeleteTempFile { filename },
            Command::GetPrinters => Action::FetchPrinters { name_filter: None },
            Command::GetPrintersByName { printername } => Action::FetchPrinters {
                name_filter: Some(printername),
            },
            Command::PrintPdf { options } => Action::SubmitPrint { options },
            Command::GetJobs { printername } => Action::FetchJobs { printername },
            Command::GetJobsById { printername, job_id } => Action::FetchJob {
                printername,
                job_id,
            },
            Command::ResumeJob { printername, job_id } => Action::ControlJob {
                printername,
                job_id,
                command: JobCommand::Resume,
            },
            Command::RestartJob { printername, job_id } => Action::ControlJob {
                printername,
                job_id,
                command: JobCommand::Restart,
            },
            Command::PauseJob { printername, job_id } => Action::ControlJob {
                printername,
                job_id,
                command: JobCommand::Pause,
            },
            Command::RemoveJob { printername, job_id } => Action::ControlJob {
                printername,
                job_id,
                command: JobCommand::Remove,
            },
        }
    }
}

/// Plans one command: the platform gate of the command surface.
pub fn plan(backend: Backend, c: Command) -> (r: Action)
    ensures
        r == spec_plan(backend, c),
{
    let native = is_native_command_exec(&c);
    if matches!(backend, Backend::Unavailable) && native {
        return Action::ReplyUnsupported;
    }
    match c {
        Command::CreateTempFile { buffer_data, filename } => Action::StoreTempFile {
            buffer_data,
            filename,
        },
        Command::RemoveTempFile { filename } => Action::DeleteTempFile { filename },
        Command::GetPrinters => Action::FetchPrinters { name_filter: None },
        Command::GetPrintersByName { printername } => Action::FetchPrinters {
            name_filter: Some(printername),
        },
        Command::PrintPdf { options } => Action::SubmitPrint { options },
        Command::GetJobs { printername } => Action::FetchJobs { printername },
        Command::GetJobsById { printername, job_id } => Action::FetchJob { printername, job_id },
        Command::ResumeJob { printername, job_id } => Action::ControlJob {
            printername,
            job_id,
            command: JobCommand::Resume,
        },
        Command::RestartJob { printername, job_id } => Action::ControlJob {
            printername,
            job_id,
            command: JobCommand::Restart,
        },
        Command::PauseJob { printername, job_id } => Action::ControlJob {
            printername,
            job_id,
            command: JobCommand::Pause,
        },
        Command::RemoveJob { printername, job_id } => Action::ControlJob {
            printername,
            job_id,
            command: JobCommand::Remove,
        },
    }
}

/// Executable twin of `is_native_command`.
pub fn is_native_command_exec(c: &Command) -> (r: bool)
    ensures
        r == is_native_command(*c),
{
    !(matches!(c, Command::CreateTempFile { .. }) || matches!(c, Command::RemoveTempFile { .. }))
}

/// The exact sentinel every native-backed command answers on a host without
/// a backend.
pub fn unsupported_sentinel() -> (r: String)
    ensures
        r@ == "Unsupported OS"@,
{
    "Unsupported OS".to_owned()
}

/// On a host without a native backend, every native-backed command is
/// answered with the sentinel at once — whatever its inputs — and the
/// temp-file commands are planned exactly as they are with a backend.
pub proof fn lemma_unsupported_platform(c: Command)
    ensures
        is_native_command(c) ==> spec_plan(Backend::Unavailable, c) == Action::ReplyUnsupported,
        !is_native_command(c) ==> spec_plan(Backend::Unavailable, c) == spec_plan(
            Backend::Native,
            c,
        ),
{
}

/// The reply of a printer query: the sentinel where no backend exists, else
/// the (possibly filtered) snapshot.
#[derive(Debug)]
pub enum PrintersReply {
    Unsupported,
    Printers(Vec<PrinterInfo>),
}

/// The reply of a print submission: the sentinel where no backend exists,
/// else the decision taken on the OS outcome.
#[derive(Debug)]
pub enum PrintPdfReply {
    Unsupported,
    Decided(SubmitDecision),
}

/// The printers named exactly `printername`, or the sentinel reply where no
/// native backend exists (then the directory snapshot is never consulted).
pub fn custom_get_printers_by_name(
    backend: Backend,
    directory: &PrinterDirectory,
    printername: String,
) -> (r: PrintersReply)
    ensures
        backend is Unavailable ==> r is Unsupported,
        backend is Native ==> r is Printers && r->Printers_0@ == spec_by_name(
            directory.printers@,
            printername@,
        ),
{
    if matches!(backend, Backend::Unavailable) {
        return PrintersReply::Unsupported;
    }
    PrintersReply::Printers(directory.list_by_name(&printername))
}

/// Submits one document: builds the request from the caller's arguments and
/// decides the reply from how the OS attempt ended. Where no native backend
/// exists the sentinel reply comes back whatever the arguments say;
/// otherwise the submission succeeds exactly when the spooler accepted the
/// job, each failure maps to its error, and cleanup of the source file is
/// requested only for an accepted job whose caller set `remove_after_print`.
pub fn custom_print_pdf(
    backend: Backend,
    id: String,
    path: String,
    printer_setting: String,
    remove_after_print: bool,
    outcome: SubmitOutcome,
) -> (r: PrintPdfReply)
    ensures
        backend is Unavailable ==> r is Unsupported,
        backend is Native ==> {
            let d = r->Decided_0;
            &&& r is Decided
            &&& (d.result is Ok <==> outcome == SubmitOutcome::Accepted)
            &&& (d.result is Err ==> d.result->Err_0 == spec_submit_error(outcome))
            &&& (d.cleanup_file <==> (remove_after_print && outcome == SubmitOutcome::Accepted))
        },
{
    if matches!(backend, Backend::Unavailable) {
        return PrintPdfReply::Unsupported;
    }
    let options = PrintOptions { id, path, print_setting: printer_setting, remove_after_print };
    PrintPdfReply::Decided(submit_decision(&options, outcome))
}

} // verus!
