use printer_module::error::PrinterError;
use printer_module::printer::{
    add_custom_paper_session, default_printer_session, delete_custom_paper_session,
    default_printer_name, printer_list_session, printer_status_session, send_bytes_session,
    send_string_session, set_default_printer_session,
};
use printer_module::session::{Action, Call, Outcome, PrinterAccess, Session};

fn ok() -> Outcome {
    Outcome { ret: 1, out: 0, last_error: 0 }
}

fn fail(code: u32) -> Outcome {
    Outcome { ret: 0, out: 0, last_error: code }
}

fn opened() -> Outcome {
    Outcome { ret: 1, out: 1, last_error: 0 }
}

/// Drives a session, answering its calls in turn with `outcomes` (then with
/// success), and records the calls it asked for.
fn drive(session: Session, outcomes: &[Outcome]) -> (Vec<Call>, Result<(), PrinterError>) {
    let (calls, result, _) = drive_to_end(session, outcomes);
    (calls, result)
}

/// As `drive`, also telling whether the session completed.
fn drive_to_end(
    mut session: Session,
    outcomes: &[Outcome],
) -> (Vec<Call>, Result<(), PrinterError>, bool) {
    let mut calls = Vec::new();
    let mut next = 0;
    loop {
        match session.action() {
            Action::Perform(call) => {
                calls.push(call);
                let o = if next < outcomes.len() { outcomes[next] } else { ok() };
                next += 1;
                session.advance(o);
            }
            Action::Finish(result) => return (calls, result, session.completed()),
        }
        assert!(calls.len() < 100);
    }
}

fn winapi(func: &'static str, code: u32) -> PrinterError {
    PrinterError::WinApiError { func, code }
}

#[test]
fn print_job_succeeds_and_undoes_in_reverse() {
    let session = send_bytes_session("HP", 5).unwrap();
    let written = Outcome { ret: 1, out: 5, last_error: 0 };
    let (calls, result) = drive(session, &[opened(), ok(), ok(), written]);
    assert_eq!(
        calls,
        vec![
            Call::OpenPrinter(PrinterAccess::Default),
            Call::StartDoc,
            Call::StartPage,
            Call::WritePrinter,
            Call::EndPage,
            Call::EndDoc,
            Call::ClosePrinter,
        ]
    );
    assert_eq!(result, Ok(()));
}

#[test]
fn print_job_open_failure_closes_nothing() {
    let session = send_bytes_session("HP", 5).unwrap();
    let (calls, result) = drive(session, &[fail(1801)]);
    assert_eq!(calls, vec![Call::OpenPrinter(PrinterAccess::Default)]);
    assert_eq!(result, Err(winapi("OpenPrinterW", 1801)));
}

#[test]
fn print_job_null_handle_is_a_failed_open() {
    let session = send_bytes_session("HP", 5).unwrap();
    let (calls, result) = drive(session, &[Outcome { ret: 1, out: 0, last_error: 6 }]);
    assert_eq!(calls, vec![Call::OpenPrinter(PrinterAccess::Default)]);
    assert_eq!(result, Err(winapi("OpenPrinterW", 6)));
}

#[test]
fn print_job_start_doc_failure_only_closes() {
    let session = send_bytes_session("HP", 5).unwrap();
    let (calls, result) = drive(session, &[opened(), fail(5)]);
    assert_eq!(
        calls,
        vec![Call::OpenPrinter(PrinterAccess::Default), Call::StartDoc, Call::ClosePrinter]
    );
    assert_eq!(result, Err(winapi("StartDocPrinterW", 5)));
}

#[test]
fn print_job_start_page_failure_ends_document() {
    let session = send_bytes_session("HP", 5).unwrap();
    let (calls, result) = drive(session, &[opened(), ok(), fail(7)]);
    assert_eq!(
        calls,
        vec![
            Call::OpenPrinter(PrinterAccess::Default),
            Call::StartDoc,
            Call::StartPage,
            Call::EndDoc,
            Call::ClosePrinter,
        ]
    );
    assert_eq!(result, Err(winapi("StartPagePrinter", 7)));
}

#[test]
fn print_job_short_write_fails_after_cleanup() {
    let session = send_bytes_session("HP", 5).unwrap();
    let short = Outcome { ret: 1, out: 3, last_error: 0 };
    let (calls, result) = drive(session, &[opened(), ok(), ok(), short]);
    assert_eq!(calls.len(), 7);
    assert_eq!(calls[4], Call::EndPage);
    assert_eq!(result, Err(winapi("WritePrinter", 0)));
}

#[test]
fn print_job_refuses_empty_name_before_empty_bytes() {
    assert_eq!(
        send_bytes_session("", 0).err(),
        Some(PrinterError::InvalidParam("打印机名称不能为空".to_string()))
    );
    assert_eq!(
        send_bytes_session("HP", 0).err(),
        Some(PrinterError::InvalidParam("打印字节数据不能为空".to_string()))
    );
}

#[test]
fn printer_list_accepts_short_buffer_query() {
    let query = Outcome { ret: 0, out: 2048, last_error: 122 };
    let (calls, result) = drive(printer_list_session(), &[query, ok()]);
    assert_eq!(calls, vec![Call::EnumPrintersQuery, Call::EnumPrintersFill]);
    assert_eq!(result, Ok(()));
}

#[test]
fn printer_list_query_failure_reports_first_call() {
    let (calls, result) = drive(printer_list_session(), &[fail(1722)]);
    assert_eq!(calls, vec![Call::EnumPrintersQuery]);
    assert_eq!(result, Err(winapi("EnumPrintersW (1st call)", 1722)));
}

#[test]
fn printer_list_too_large_is_out_of_memory() {
    let query = Outcome { ret: 0, out: 10 * 1024 * 1024 + 1, last_error: 122 };
    let (_, result) = drive(printer_list_session(), &[query]);
    assert_eq!(result, Err(PrinterError::MemoryAllocFailed));
    let at_limit = Outcome { ret: 0, out: 10 * 1024 * 1024, last_error: 122 };
    let (_, result) = drive(printer_list_session(), &[at_limit, ok()]);
    assert_eq!(result, Ok(()));
}

#[test]
fn printer_list_fill_failure_reports_second_call() {
    let query = Outcome { ret: 0, out: 16, last_error: 122 };
    let (_, result) = drive(printer_list_session(), &[query, fail(8)]);
    assert_eq!(result, Err(winapi("EnumPrintersW (2nd call)", 8)));
}

#[test]
fn default_printer_name_too_long() {
    let query = Outcome { ret: 0, out: 4097, last_error: 122 };
    let (calls, result) = drive(default_printer_session(), &[query]);
    assert_eq!(calls, vec![Call::DefaultPrinterQuery]);
    assert_eq!(result, Err(PrinterError::InvalidParam("默认打印机名称过长".to_string())));
}

#[test]
fn default_printer_second_call_failure() {
    let query = Outcome { ret: 0, out: 3, last_error: 122 };
    let (_, result) = drive(default_printer_session(), &[query, fail(2)]);
    assert_eq!(result, Err(winapi("GetDefaultPrinterW (2nd call)", 2)));
}

#[test]
fn set_default_printer_session_calls_once() {
    let (calls, result) = drive(set_default_printer_session("HP").unwrap(), &[fail(1801)]);
    assert_eq!(calls, vec![Call::SetDefaultPrinter]);
    assert_eq!(result, Err(winapi("SetDefaultPrinterW", 1801)));
    assert_eq!(
        set_default_printer_session("").err(),
        Some(PrinterError::InvalidParam("打印机名称不能为空".to_string()))
    );
}

#[test]
fn printer_status_closes_after_failed_query() {
    let session = printer_status_session("HP").unwrap();
    let (calls, result) = drive(session, &[opened(), fail(1804)]);
    assert_eq!(
        calls,
        vec![Call::OpenPrinter(PrinterAccess::Use), Call::PrinterInfo2Query, Call::ClosePrinter]
    );
    assert_eq!(result, Err(winapi("GetPrinterW (1st call)", 1804)));
}

#[test]
fn printer_status_too_large_is_out_of_memory() {
    let session = printer_status_session("HP").unwrap();
    let query = Outcome { ret: 0, out: 5 * 1024 * 1024 + 1, last_error: 122 };
    let (calls, result) = drive(session, &[opened(), query]);
    assert_eq!(calls.last(), Some(&Call::ClosePrinter));
    assert_eq!(result, Err(PrinterError::MemoryAllocFailed));
}

#[test]
fn printer_status_success() {
    let session = printer_status_session("HP").unwrap();
    let query = Outcome { ret: 0, out: 136, last_error: 122 };
    let (calls, result) = drive(session, &[opened(), query, ok()]);
    assert_eq!(
        calls,
        vec![
            Call::OpenPrinter(PrinterAccess::Use),
            Call::PrinterInfo2Query,
            Call::PrinterInfo2Fill,
            Call::ClosePrinter,
        ]
    );
    assert_eq!(result, Ok(()));
}

#[test]
fn add_paper_full_run_frees_and_closes_in_reverse() {
    let session = add_custom_paper_session("HP", "Label").unwrap();
    let needed9 = Outcome { ret: 0, out: 8, last_error: 122 };
    let size = Outcome { ret: 220, out: 0, last_error: 0 };
    let outcomes = [
        opened(),
        fail(1902), // a missing form is no failure
        ok(),
        size,
        ok(),
        size,
        size,
        needed9,
        ok(),
        ok(),
        ok(),
        Outcome { ret: 0, out: 0, last_error: 1460 }, // a timed-out broadcast is no failure
    ];
    let (calls, result) = drive(session, &outcomes);
    assert_eq!(
        calls,
        vec![
            Call::OpenPrinter(PrinterAccess::AdministerAndUse),
            Call::DeleteForm,
            Call::AddForm,
            Call::DevModeSize,
            Call::AllocDevMode,
            Call::ReadDevMode,
            Call::WriteDevMode,
            Call::PrinterInfo9Query,
            Call::AllocPrinterInfo9,
            Call::PrinterInfo9Fill,
            Call::SetPrinterInfo9,
            Call::BroadcastSettingChange,
            Call::FreePrinterInfo9,
            Call::FreeDevMode,
            Call::ClosePrinter,
        ]
    );
    assert_eq!(result, Ok(()));
}

#[test]
fn add_paper_negative_devmode_size_fails() {
    let session = add_custom_paper_session("HP", "Label").unwrap();
    let negative = Outcome { ret: -1, out: 0, last_error: 87 };
    let (calls, result) = drive(session, &[opened(), ok(), ok(), negative]);
    assert_eq!(calls.last(), Some(&Call::ClosePrinter));
    assert_eq!(calls.len(), 5);
    assert_eq!(result, Err(winapi("DocumentPropertiesW (get size)", 87)));
}

#[test]
fn add_paper_failed_allocation_is_out_of_memory() {
    let session = add_custom_paper_session("HP", "Label").unwrap();
    let (calls, result) = drive(session, &[opened(), ok(), ok(), ok(), fail(0)]);
    assert_eq!(calls[4], Call::AllocDevMode);
    assert_eq!(calls[5], Call::ClosePrinter);
    assert_eq!(result, Err(PrinterError::MemoryAllocFailed));
}

#[test]
fn add_paper_zero_info9_size_fails_after_freeing_devmode() {
    let session = add_custom_paper_session("HP", "Label").unwrap();
    let zero = Outcome { ret: 0, out: 0, last_error: 50 };
    let (calls, result) =
        drive(session, &[opened(), ok(), ok(), ok(), ok(), ok(), ok(), zero]);
    assert_eq!(&calls[8..], &[Call::FreeDevMode, Call::ClosePrinter]);
    assert_eq!(result, Err(winapi("GetPrinterW (get PRINTER_INFO_9 size)", 50)));
}

#[test]
fn add_paper_set_printer_failure_frees_both() {
    let session = add_custom_paper_session("HP", "Label").unwrap();
    let needed9 = Outcome { ret: 0, out: 8, last_error: 122 };
    let outcomes =
        [opened(), ok(), ok(), ok(), ok(), ok(), ok(), needed9, ok(), ok(), fail(5)];
    let (calls, result) = drive(session, &outcomes);
    assert_eq!(&calls[11..], &[Call::FreePrinterInfo9, Call::FreeDevMode, Call::ClosePrinter]);
    assert_eq!(result, Err(winapi("SetPrinterW", 5)));
}

#[test]
fn paper_sessions_refuse_empty_names() {
    let refused = Some(PrinterError::InvalidParam("打印机名称/纸张名称不能为空".to_string()));
    assert_eq!(add_custom_paper_session("", "A4").err(), refused);
    assert_eq!(add_custom_paper_session("HP", "").err(), refused);
    assert_eq!(delete_custom_paper_session("", "").err(), refused);
}

#[test]
fn delete_paper_failure_closes() {
    let session = delete_custom_paper_session("HP", "Label").unwrap();
    let (calls, result) = drive(session, &[opened(), fail(1902)]);
    assert_eq!(
        calls,
        vec![
            Call::OpenPrinter(PrinterAccess::AdministerAndUse),
            Call::DeleteForm,
            Call::ClosePrinter,
        ]
    );
    assert_eq!(result, Err(winapi("DeleteFormW", 1902)));
}

#[test]
fn access_masks() {
    assert_eq!(PrinterAccess::Default.desired_access(), None);
    assert_eq!(PrinterAccess::Use.desired_access(), Some(8));
    assert_eq!(PrinterAccess::AdministerAndUse.desired_access(), Some(12));
}

#[test]
fn no_default_printer_reads_as_none() {
    let absent = Outcome { ret: 0, out: 0, last_error: 2 };
    let (calls, result, completed) = drive_to_end(default_printer_session(), &[absent]);
    assert_eq!(calls, vec![Call::DefaultPrinterQuery]);
    assert_eq!(result, Ok(()));
    assert!(!completed);
    assert_eq!(default_printer_name(completed, &[], 0), Ok(None));
}

#[test]
fn default_printer_read_completes() {
    let query = Outcome { ret: 0, out: 3, last_error: 122 };
    let filled = Outcome { ret: 1, out: 3, last_error: 0 };
    let (calls, result, completed) = drive_to_end(default_printer_session(), &[query, filled]);
    assert_eq!(calls, vec![Call::DefaultPrinterQuery, Call::DefaultPrinterFill]);
    assert_eq!(result, Ok(()));
    assert!(completed);
    let buffer = [0x48, 0x50, 0];
    assert_eq!(default_printer_name(completed, &buffer, 3), Ok(Some("HP".to_string())));
}

#[test]
fn default_printer_other_first_error_fails() {
    let (_, result, completed) = drive_to_end(default_printer_session(), &[fail(1722)]);
    assert_eq!(result, Err(winapi("GetDefaultPrinterW (1st call)", 1722)));
    assert!(!completed);
}

#[test]
fn string_session_prints_encoded_bytes() {
    let (bytes, session) = send_string_session("HP", "é€A").unwrap();
    assert_eq!(bytes, vec![0xE9, 0x80, 0x41]);
    let written = Outcome { ret: 1, out: 3, last_error: 0 };
    let (calls, result) = drive(session, &[opened(), ok(), ok(), written]);
    assert_eq!(calls.len(), 7);
    assert_eq!(result, Ok(()));
    let (ascii, _) = send_string_session("HP", "^XA^XZ").unwrap();
    assert_eq!(ascii, b"^XA^XZ".to_vec());
}

#[test]
fn string_session_refusals_in_order() {
    assert_eq!(
        send_string_session("", "").err(),
        Some(PrinterError::InvalidParam("打印字符串不能为空".to_string()))
    );
    assert_eq!(send_string_session("", "中").err(), Some(PrinterError::EncodingError));
    assert_eq!(
        send_string_session("", "A").err(),
        Some(PrinterError::InvalidParam("打印机名称不能为空".to_string()))
    );
}

#[test]
fn print_job_refuses_more_than_one_write_takes() {
    let too_many = u32::MAX as usize + 1;
    assert_eq!(
        send_bytes_session("HP", too_many).err(),
        Some(PrinterError::InvalidParam("打印字节数据过大".to_string()))
    );
    assert!(send_bytes_session("HP", u32::MAX as usize).is_ok());
}
