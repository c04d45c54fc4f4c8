//! What each printer operation's session does, stated over the outcomes of
//! its spooler calls: which calls it makes, which outcome of each call passes,
//! what a failure reports, and what is released.

use vstd::prelude::*;

use crate::error::ErrorView;
use crate::printer::{
    add_custom_paper_plan,
    default_printer_plan,
    delete_custom_paper_plan,
    printer_list_plan,
    printer_status_plan,
    send_bytes_plan,
    set_default_printer_plan,
    MAX_PRINT_BYTES,
};
use crate::session::{
    ActionView,
    Call,
    ERROR_FILE_NOT_FOUND,
    ERROR_INSUFFICIENT_BUFFER,
    Outcome,
    PrinterAccess,
    ends_early,
    expected_trace,
    first_failure,
    first_failure_from,
    lemma_session_brackets,
    next_action,
    passes,
    releases,
    run,
    stage_calls,
    start_state,
    verdict,
};

verus! {

/// The failure of a spooler call named `func` whose last error is `code`.
pub open spec fn api_error(func: &str, code: u32) -> ErrorView {
    ErrorView::WinApiError { func: func@, code }
}

/// Law: making a printer the default makes one `SetDefaultPrinterW` call and
/// succeeds exactly where it returned non-zero; otherwise it reports that
/// call with its last error.
pub proof fn lemma_set_default_printer(os: Seq<Outcome>)
    requires
        os.len() >= 1,
    ensures
        ({
            let plan = set_default_printer_plan();
            let (trace, fin) = run(plan, start_state(plan), os);
            &&& trace == seq![Call::SetDefaultPrinter]
            &&& fin matches Some(f) && next_action(plan, f) == ActionView::Finish(
                if os[0].ret != 0 {
                    Ok(())
                } else {
                    Err(api_error("SetDefaultPrinterW", os[0].last_error))
                },
            )
        }),
{
    let plan = set_default_printer_plan();
    assert(releases(plan, 0) =~= Seq::<crate::session::Call>::empty());
    assert(releases(plan, 1) =~= Seq::<crate::session::Call>::empty());
    if os[0].ret != 0 {
        assert(first_failure_from(plan, os, 1) == 1);
        assert(first_failure(plan, os) == 1);
    } else {
        assert(first_failure(plan, os) == 0);
    }
    assert(stage_calls(plan.subrange(0, 1)) =~= seq![Call::SetDefaultPrinter]);
    assert(expected_trace(plan, os) =~= seq![Call::SetDefaultPrinter]);
    lemma_session_brackets(plan, os);
}

/// Law: deleting a paper opens the printer with administer and use access;
/// where that fails (zero, or a null handle) it stops and reports the open.
/// Otherwise it calls `DeleteFormW`, closes the printer, and succeeds exactly
/// where `DeleteFormW` returned non-zero, else reports it with its last error.
pub proof fn lemma_delete_custom_paper(os: Seq<Outcome>)
    requires
        os.len() >= 3,
    ensures
        ({
            let plan = delete_custom_paper_plan();
            let (trace, fin) = run(plan, start_state(plan), os);
            let opened = os[0].ret != 0 && os[0].out != 0;
            &&& !opened ==> trace == seq![Call::OpenPrinter(PrinterAccess::AdministerAndUse)]
            &&& opened ==> trace == seq![
                Call::OpenPrinter(PrinterAccess::AdministerAndUse),
                Call::DeleteForm,
                Call::ClosePrinter,
            ]
            &&& fin matches Some(f) && next_action(plan, f) == ActionView::Finish(
                if !opened {
                    Err(api_error("OpenPrinterW", os[0].last_error))
                } else if os[1].ret != 0 {
                    Ok(())
                } else {
                    Err(api_error("DeleteFormW", os[1].last_error))
                },
            )
        }),
{
    let plan = delete_custom_paper_plan();
    let opened = os[0].ret != 0 && os[0].out != 0;
    assert(releases(plan, 0) =~= Seq::<Call>::empty());
    assert(releases(plan, 1) =~= seq![Call::ClosePrinter]);
    assert(releases(plan, 2) =~= seq![Call::ClosePrinter]);
    assert(seq![Call::ClosePrinter].reverse() =~= seq![Call::ClosePrinter]);
    if !opened {
        assert(first_failure(plan, os) == 0);
        assert(stage_calls(plan.subrange(0, 1)) =~= seq![
            Call::OpenPrinter(PrinterAccess::AdministerAndUse),
        ]);
        assert(expected_trace(plan, os) =~= seq![
            Call::OpenPrinter(PrinterAccess::AdministerAndUse),
        ]);
    } else {
        if os[1].ret != 0 {
            assert(first_failure_from(plan, os, 2) == 2);
            assert(first_failure_from(plan, os, 1) == 2);
        } else {
            assert(first_failure_from(plan, os, 1) == 1);
        }
        assert(stage_calls(plan.subrange(0, 2)) =~= seq![
            Call::OpenPrinter(PrinterAccess::AdministerAndUse),
            Call::DeleteForm,
        ]);
        assert(expected_trace(plan, os) =~= seq![
            Call::OpenPrinter(PrinterAccess::AdministerAndUse),
            Call::DeleteForm,
            Call::ClosePrinter,
        ]);
    }
    lemma_session_brackets(plan, os);
}

/// Law: adding a paper makes, in this order, the calls open (administer and
/// use), delete form, add form, device mode size, allocate device mode, read
/// device mode, write device mode, level 9 size, allocate level 9, read level
/// 9, set level 9, broadcast. Each passes exactly on the outcome stated here
/// and otherwise reports the error stated here; deleting the old form and the
/// broadcast always pass, and no call ends the operation early. The printer is
/// owed a close once opened, the device mode a free once allocated, and the
/// level 9 memory a free once allocated.
pub proof fn lemma_add_custom_paper(os: Seq<Outcome>)
    requires
        os.len() >= 12,
    ensures
        ({
            let plan = add_custom_paper_plan();
            &&& stage_calls(plan) == seq![
                Call::OpenPrinter(PrinterAccess::AdministerAndUse),
                Call::DeleteForm,
                Call::AddForm,
                Call::DevModeSize,
                Call::AllocDevMode,
                Call::ReadDevMode,
                Call::WriteDevMode,
                Call::PrinterInfo9Query,
                Call::AllocPrinterInfo9,
                Call::PrinterInfo9Fill,
                Call::SetPrinterInfo9,
                Call::BroadcastSettingChange,
            ]
            &&& releases(plan, 0) == Seq::<Call>::empty()
            &&& forall|k: nat| 1 <= k <= 4 ==> #[trigger] releases(plan, k) == seq![Call::ClosePrinter]
            &&& forall|k: nat|
                5 <= k <= 8 ==> #[trigger] releases(plan, k) == seq![
                    Call::ClosePrinter,
                    Call::FreeDevMode,
                ]
            &&& forall|k: nat|
                9 <= k <= 12 ==> #[trigger] releases(plan, k) == seq![
                    Call::ClosePrinter,
                    Call::FreeDevMode,
                    Call::FreePrinterInfo9,
                ]
            &&& forall|i: int| 0 <= i < 12 ==> !#[trigger] ends_early(plan[i], os[i])
            &&& passes(plan, os, 0) <==> os[0].ret != 0 && os[0].out != 0
            &&& passes(plan, os, 1)
            &&& passes(plan, os, 2) <==> os[2].ret != 0
            &&& passes(plan, os, 3) <==> os[3].ret >= 0
            &&& passes(plan, os, 4) <==> os[4].ret != 0
            &&& passes(plan, os, 5) <==> os[5].ret >= 0
            &&& passes(plan, os, 6) <==> os[6].ret >= 0
            &&& passes(plan, os, 7) <==> os[7].out != 0
            &&& passes(plan, os, 8) <==> os[8].ret != 0
            &&& passes(plan, os, 9) <==> os[9].ret != 0
            &&& passes(plan, os, 10) <==> os[10].ret != 0
            &&& passes(plan, os, 11)
            &&& !passes(plan, os, 0) ==> verdict(plan[0], os[0]) == Some(
                api_error("OpenPrinterW", os[0].last_error),
            )
            &&& !passes(plan, os, 2) ==> verdict(plan[2], os[2]) == Some(
                api_error("AddFormW", os[2].last_error),
            )
            &&& !passes(plan, os, 3) ==> verdict(plan[3], os[3]) == Some(
                api_error("DocumentPropertiesW (get size)", os[3].last_error),
            )
            &&& !passes(plan, os, 4) ==> verdict(plan[4], os[4]) == Some(
                ErrorView::MemoryAllocFailed,
            )
            &&& !passes(plan, os, 5) ==> verdict(plan[5], os[5]) == Some(
                api_error("DocumentPropertiesW (get devmode)", os[5].last_error),
            )
            &&& !passes(plan, os, 6) ==> verdict(plan[6], os[6]) == Some(
                api_error("DocumentPropertiesW (set devmode)", os[6].last_error),
            )
            &&& !passes(plan, os, 7) ==> verdict(plan[7], os[7]) == Some(
                api_error("GetPrinterW (get PRINTER_INFO_9 size)", os[7].last_error),
            )
            &&& !passes(plan, os, 8) ==> verdict(plan[8], os[8]) == Some(
                ErrorView::MemoryAllocFailed,
            )
            &&& !passes(plan, os, 9) ==> verdict(plan[9], os[9]) == Some(
                api_error("GetPrinterW (PRINTER_INFO_9)", os[9].last_error),
            )
            &&& !passes(plan, os, 10) ==> verdict(plan[10], os[10]) == Some(
                api_error("SetPrinterW", os[10].last_error),
            )
        }),
{
    let plan = add_custom_paper_plan();
    assert(stage_calls(plan) =~= seq![
        Call::OpenPrinter(PrinterAccess::AdministerAndUse),
        Call::DeleteForm,
        Call::AddForm,
        Call::DevModeSize,
        Call::AllocDevMode,
        Call::ReadDevMode,
        Call::WriteDevMode,
        Call::PrinterInfo9Query,
        Call::AllocPrinterInfo9,
        Call::PrinterInfo9Fill,
        Call::SetPrinterInfo9,
        Call::BroadcastSettingChange,
    ]);
    let c = seq![Call::ClosePrinter];
    let cd = seq![Call::ClosePrinter, Call::FreeDevMode];
    let cdi = seq![Call::ClosePrinter, Call::FreeDevMode, Call::FreePrinterInfo9];
    assert(releases(plan, 0) =~= Seq::<Call>::empty());
    assert(releases(plan, 1) =~= c);
    assert(releases(plan, 2) =~= c);
    assert(releases(plan, 3) =~= c);
    assert(releases(plan, 4) =~= c);
    assert(releases(plan, 5) =~= cd);
    assert(releases(plan, 6) =~= cd);
    assert(releases(plan, 7) =~= cd);
    assert(releases(plan, 8) =~= cd);
    assert(releases(plan, 9) =~= cdi);
    assert(releases(plan, 10) =~= cdi);
    assert(releases(plan, 11) =~= cdi);
    assert(releases(plan, 12) =~= cdi);
}

/// Law: a raw print job opens the printer without defaults, then starts the
/// document, starts the page and writes. The open passes exactly where it
/// returned non-zero with a non-null handle, the document and the page start
/// exactly where those calls returned non-zero; each failure reports its call
/// by name with its last error. Nothing ends the job early.
pub proof fn lemma_print_job_checks(byte_count: usize, os: Seq<Outcome>)
    requires
        0 < byte_count <= MAX_PRINT_BYTES,
        os.len() >= 4,
    ensures
        ({
            let plan = send_bytes_plan(byte_count);
            &&& forall|i: int| 0 <= i < 4 ==> !#[trigger] ends_early(plan[i], os[i])
            &&& passes(plan, os, 0) <==> os[0].ret != 0 && os[0].out != 0
            &&& passes(plan, os, 1) <==> os[1].ret != 0
            &&& passes(plan, os, 2) <==> os[2].ret != 0
            &&& !passes(plan, os, 0) ==> verdict(plan[0], os[0]) == Some(
                api_error("OpenPrinterW", os[0].last_error),
            )
            &&& !passes(plan, os, 1) ==> verdict(plan[1], os[1]) == Some(
                api_error("StartDocPrinterW", os[1].last_error),
            )
            &&& !passes(plan, os, 2) ==> verdict(plan[2], os[2]) == Some(
                api_error("StartPagePrinter", os[2].last_error),
            )
            &&& !passes(plan, os, 3) ==> verdict(plan[3], os[3]) == Some(
                api_error("WritePrinter", os[3].last_error),
            )
        }),
{
}

/// Law: reading a printer's status opens it with use access, asks the size of
/// its level 2 information, then fills it. The open passes exactly where it
/// returned non-zero with a non-null handle; the size query passes where it
/// returned non-zero or failed only for want of a buffer, and the size is at
/// most 5 MiB (more is out of memory); the fill passes where it returned
/// non-zero. Each failure of a call reports it by name with its last error,
/// and only the open is owed a release, a close.
pub proof fn lemma_printer_status(os: Seq<Outcome>)
    requires
        os.len() >= 3,
    ensures
        ({
            let plan = printer_status_plan();
            &&& stage_calls(plan) == seq![
                Call::OpenPrinter(PrinterAccess::Use),
                Call::PrinterInfo2Query,
                Call::PrinterInfo2Fill,
            ]
            &&& releases(plan, 1) == seq![Call::ClosePrinter]
            &&& releases(plan, 2) == seq![Call::ClosePrinter]
            &&& releases(plan, 3) == seq![Call::ClosePrinter]
            &&& forall|i: int| 0 <= i < 3 ==> !#[trigger] ends_early(plan[i], os[i])
            &&& passes(plan, os, 0) <==> os[0].ret != 0 && os[0].out != 0
            &&& passes(plan, os, 1) <==> (os[1].ret != 0 || os[1].last_error
                == ERROR_INSUFFICIENT_BUFFER) && os[1].out <= 5 * 1024 * 1024
            &&& passes(plan, os, 2) <==> os[2].ret != 0
            &&& !passes(plan, os, 0) ==> verdict(plan[0], os[0]) == Some(
                api_error("OpenPrinterW", os[0].last_error),
            )
            &&& os[1].ret == 0 && os[1].last_error != ERROR_INSUFFICIENT_BUFFER ==> verdict(
                plan[1],
                os[1],
            ) == Some(api_error("GetPrinterW (1st call)", os[1].last_error))
            &&& (os[1].ret != 0 || os[1].last_error == ERROR_INSUFFICIENT_BUFFER) && os[1].out > 5
                * 1024 * 1024 ==> verdict(plan[1], os[1]) == Some(ErrorView::MemoryAllocFailed)
            &&& !passes(plan, os, 2) ==> verdict(plan[2], os[2]) == Some(
                api_error("GetPrinterW (2nd call)", os[2].last_error),
            )
        }),
{
    let plan = printer_status_plan();
    assert(stage_calls(plan) =~= seq![
        Call::OpenPrinter(PrinterAccess::Use),
        Call::PrinterInfo2Query,
        Call::PrinterInfo2Fill,
    ]);
    assert(releases(plan, 0) =~= Seq::<Call>::empty());
    assert(releases(plan, 1) =~= seq![Call::ClosePrinter]);
    assert(releases(plan, 2) =~= seq![Call::ClosePrinter]);
    assert(releases(plan, 3) =~= seq![Call::ClosePrinter]);
}

/// Law: listing the printers asks the size of the list, then fills it, and
/// releases nothing. The query passes where it returned non-zero or failed
/// only for want of a buffer, and the size is at most 10 MiB (more is out of
/// memory); the fill passes where it returned non-zero. Each failure of a call
/// reports it by name with its last error.
pub proof fn lemma_printer_list(os: Seq<Outcome>)
    requires
        os.len() >= 2,
    ensures
        ({
            let plan = printer_list_plan();
            &&& stage_calls(plan) == seq![Call::EnumPrintersQuery, Call::EnumPrintersFill]
            &&& releases(plan, 2) == Seq::<Call>::empty()
            &&& forall|i: int| 0 <= i < 2 ==> !#[trigger] ends_early(plan[i], os[i])
            &&& passes(plan, os, 0) <==> (os[0].ret != 0 || os[0].last_error
                == ERROR_INSUFFICIENT_BUFFER) && os[0].out <= 10 * 1024 * 1024
            &&& passes(plan, os, 1) <==> os[1].ret != 0
            &&& os[0].ret == 0 && os[0].last_error != ERROR_INSUFFICIENT_BUFFER ==> verdict(
                plan[0],
                os[0],
            ) == Some(api_error("EnumPrintersW (1st call)", os[0].last_error))
            &&& (os[0].ret != 0 || os[0].last_error == ERROR_INSUFFICIENT_BUFFER) && os[0].out > 10
                * 1024 * 1024 ==> verdict(plan[0], os[0]) == Some(ErrorView::MemoryAllocFailed)
            &&& !passes(plan, os, 1) ==> verdict(plan[1], os[1]) == Some(
                api_error("EnumPrintersW (2nd call)", os[1].last_error),
            )
        }),
{
    let plan = printer_list_plan();
    assert(stage_calls(plan) =~= seq![Call::EnumPrintersQuery, Call::EnumPrintersFill]);
    assert(releases(plan, 0) =~= Seq::<Call>::empty());
    assert(releases(plan, 1) =~= Seq::<Call>::empty());
    assert(releases(plan, 2) =~= Seq::<Call>::empty());
}

/// Law: reading the default printer asks the length of its name, then fills
/// it, and releases nothing. Where the query fails with `ERROR_FILE_NOT_FOUND`
/// (no default printer is set) the session ends there without failure.
/// Otherwise the query passes where it returned non-zero or failed only for
/// want of a buffer and the length is at most 4096 (more is refused as too
/// long a name); the fill passes where it returned non-zero. Each failure of a
/// call reports it by name with its last error.
pub proof fn lemma_default_printer(os: Seq<Outcome>)
    requires
        os.len() >= 2,
    ensures
        ({
            let plan = default_printer_plan();
            let absent = os[0].ret == 0 && os[0].last_error == ERROR_FILE_NOT_FOUND;
            &&& stage_calls(plan) == seq![Call::DefaultPrinterQuery, Call::DefaultPrinterFill]
            &&& releases(plan, 2) == Seq::<Call>::empty()
            &&& ends_early(plan[0], os[0]) <==> absent
            &&& absent ==> verdict(plan[0], os[0]) is None
            &&& !ends_early(plan[1], os[1])
            &&& passes(plan, os, 0) <==> !absent && (os[0].ret != 0 || os[0].last_error
                == ERROR_INSUFFICIENT_BUFFER) && os[0].out <= 4096
            &&& passes(plan, os, 1) <==> os[1].ret != 0
            &&& os[0].ret == 0 && os[0].last_error != ERROR_INSUFFICIENT_BUFFER && !absent
                ==> verdict(plan[0], os[0]) == Some(
                api_error("GetDefaultPrinterW (1st call)", os[0].last_error),
            )
            &&& (os[0].ret != 0 || os[0].last_error == ERROR_INSUFFICIENT_BUFFER) && os[0].out
                > 4096 ==> verdict(plan[0], os[0]) == Some(
                ErrorView::InvalidParam("默认打印机名称过长"@),
            )
            &&& !passes(plan, os, 1) ==> verdict(plan[1], os[1]) == Some(
                api_error("GetDefaultPrinterW (2nd call)", os[1].last_error),
            )
        }),
{
    let plan = default_printer_plan();
    assert(stage_calls(plan) =~= seq![Call::DefaultPrinterQuery, Call::DefaultPrinterFill]);
    assert(releases(plan, 0) =~= Seq::<Call>::empty());
    assert(releases(plan, 1) =~= Seq::<Call>::empty());
    assert(releases(plan, 2) =~= Seq::<Call>::empty());
}

} // verus!
