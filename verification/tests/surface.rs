use printer::commands::{
    custom_get_printers_by_name, custom_print_pdf, plan, unsupported_sentinel, Action, Backend,
    Command, PrintPdfReply, PrintersReply,
};
use printer::error::PrintError;
use printer::jobs::JobCommand;
use printer::printers::{PrinterDirectory, PrinterInfo};
use printer::submit::{submit_decision, PrintOptions, SubmitOutcome};

fn options(remove_after_print: bool) -> PrintOptions {
    PrintOptions {
        id: "req-1".to_string(),
        path: "/tmp/doc.pdf".to_string(),
        print_setting: "duplex".to_string(),
        remove_after_print,
    }
}

#[test]
fn sentinel_is_exactly_unsupported_os() {
    assert_eq!(unsupported_sentinel(), "Unsupported OS");
    assert_eq!(PrintError::UnsupportedPlatform.label(), "Unsupported OS");
}

#[test]
fn every_native_command_is_gated_on_an_unsupported_platform() {
    let native_commands = vec![
        Command::GetPrinters,
        Command::GetPrintersByName {
            printername: "X".to_string(),
        },
        Command::PrintPdf {
            options: options(true),
        },
        Command::GetJobs {
            printername: "X".to_string(),
        },
        Command::GetJobsById {
            printername: "X".to_string(),
            job_id: 3,
        },
        Command::ResumeJob {
            printername: "X".to_string(),
            job_id: 3,
        },
        Command::RestartJob {
            printername: "X".to_string(),
            job_id: 3,
        },
        Command::PauseJob {
            printername: "X".to_string(),
            job_id: 3,
        },
        Command::RemoveJob {
            printername: "X".to_string(),
            job_id: 3,
        },
    ];
    for c in native_commands {
        assert!(matches!(
            plan(Backend::Unavailable, c),
            Action::ReplyUnsupported
        ));
    }
}

#[test]
fn temp_file_commands_are_not_gated() {
    let create = Command::CreateTempFile {
        buffer_data: b"QQ==".to_vec(),
        filename: "f.bin".to_string(),
    };
    match plan(Backend::Unavailable, create) {
        Action::StoreTempFile {
            buffer_data,
            filename,
        } => {
            assert_eq!(buffer_data, b"QQ==".to_vec());
            assert_eq!(filename, "f.bin");
        }
        _ => panic!("create_temp_file must not be platform-gated"),
    }
    let remove = Command::RemoveTempFile {
        filename: "f.bin".to_string(),
    };
    match plan(Backend::Unavailable, remove) {
        Action::DeleteTempFile { filename } => assert_eq!(filename, "f.bin"),
        _ => panic!("remove_temp_file must not be platform-gated"),
    }
}

#[test]
fn native_plans_reach_their_actions() {
    match plan(
        Backend::Native,
        Command::GetPrintersByName {
            printername: "Office".to_string(),
        },
    ) {
        Action::FetchPrinters { name_filter } => assert_eq!(name_filter.unwrap(), "Office"),
        _ => panic!("expected a printer fetch"),
    }
    match plan(
        Backend::Native,
        Command::PauseJob {
            printername: "Office".to_string(),
            job_id: 5,
        },
    ) {
        Action::ControlJob {
            printername,
            job_id,
            command,
        } => {
            assert_eq!(printername, "Office");
            assert_eq!(job_id, 5);
            assert_eq!(command, JobCommand::Pause);
        }
        _ => panic!("expected a job control action"),
    }
}

#[test]
fn printers_by_name_answers_sentinel_without_backend() {
    let dir = PrinterDirectory {
        printers: vec![PrinterInfo {
            name: "X".to_string(),
            status: "READY".to_string(),
            is_default: false,
            port: "P:".to_string(),
            driver: "D".to_string(),
        }],
    };
    assert!(matches!(
        custom_get_printers_by_name(Backend::Unavailable, &dir, "X".to_string()),
        PrintersReply::Unsupported
    ));
    match custom_get_printers_by_name(Backend::Native, &dir, "X".to_string()) {
        PrintersReply::Printers(found) => {
            assert_eq!(found.len(), 1);
            assert_eq!(found[0].name, "X");
        }
        _ => panic!("expected the filtered snapshot"),
    }
}

#[test]
fn offline_printer_fails_with_device_error_and_keeps_the_file() {
    let d = submit_decision(&options(true), SubmitOutcome::DeviceUnavailable);
    assert_eq!(d.result.unwrap_err(), PrintError::DeviceError);
    assert!(!d.cleanup_file);
}

#[test]
fn submit_outcomes_map_to_their_errors_and_cleanup_policy() {
    let accepted = submit_decision(&options(true), SubmitOutcome::Accepted);
    assert!(accepted.result.is_ok());
    assert!(accepted.cleanup_file);

    let accepted_keep = submit_decision(&options(false), SubmitOutcome::Accepted);
    assert!(accepted_keep.result.is_ok());
    assert!(!accepted_keep.cleanup_file);

    let unreadable = submit_decision(&options(true), SubmitOutcome::DocumentUnreadable);
    assert_eq!(unreadable.result.unwrap_err(), PrintError::DocumentError);
    assert!(!unreadable.cleanup_file);

    let forbidden = submit_decision(&options(true), SubmitOutcome::PermissionDenied);
    assert_eq!(forbidden.result.unwrap_err(), PrintError::PermissionError);
    assert!(!forbidden.cleanup_file);
}

#[test]
fn print_pdf_is_gated_and_decides_from_the_outcome() {
    let gated = custom_print_pdf(
        Backend::Unavailable,
        "req-1".to_string(),
        "/tmp/doc.pdf".to_string(),
        "duplex".to_string(),
        true,
        SubmitOutcome::Accepted,
    );
    assert!(matches!(gated, PrintPdfReply::Unsupported));

    match custom_print_pdf(
        Backend::Native,
        "req-1".to_string(),
        "/tmp/doc.pdf".to_string(),
        "duplex".to_string(),
        true,
        SubmitOutcome::DeviceUnavailable,
    ) {
        PrintPdfReply::Decided(d) => {
            assert_eq!(d.result.unwrap_err(), PrintError::DeviceError);
            assert!(!d.cleanup_file);
        }
        _ => panic!("expected a decision on a native host"),
    }
}

#[test]
fn error_labels_are_stable() {
    assert_eq!(PrintError::DecodeError.label(), "decode error");
    assert_eq!(PrintError::IoError.label(), "io error");
    assert_eq!(PrintError::DeviceError.label(), "device error");
    assert_eq!(PrintError::DocumentError.label(), "document error");
    assert_eq!(PrintError::JobNotFound.label(), "job not found");
    assert_eq!(PrintError::PermissionError.label(), "permission error");
}
