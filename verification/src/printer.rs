//! The printer operations: their parameter checks, the stages of their
//! spooler sessions, and what they make of the data the calls returned.

use vstd::prelude::*;
use vstd::string::*;

use crate::error::{ErrorView, PrinterError, fails_with};
use crate::session::{
    Call,
    Check,
    Oversize,
    PrinterAccess,
    ActionView,
    ERROR_FILE_NOT_FOUND,
    Outcome,
    Phase,
    Session,
    Stage,
    expected_result,
    expected_trace,
    first_failure,
    first_failure_from,
    lemma_session_brackets,
    next_action,
    passes,
    releases,
    run,
    stage_calls,
    start_state,
    verdict,
};
use crate::payload::{
    ascii_bytes,
    encodable,
    encoding_fits,
    string_payload,
    windows_1252_bytes,
};
use crate::text::{lemma_utf16_round_trip, str_to_utf16, string_from_utf16, utf16_decode, utf16_encode};

verus! {

/// The most bytes that the printer list may take: 10 MiB.
pub const PRINTER_LIST_LIMIT: u32 = 10485760;

/// The most bytes that a printer's level 2 information may take: 5 MiB.
pub const PRINTER_INFO_LIMIT: u32 = 5242880;

/// The most characters that the default printer's name may take.
pub const DEFAULT_NAME_LIMIT: u32 = 4096;

// ------------------------------------------------------------------ checks

pub open spec fn printer_name_required() -> ErrorView {
    ErrorView::InvalidParam("打印机名称不能为空"@)
}

pub open spec fn names_required() -> ErrorView {
    ErrorView::InvalidParam("打印机名称/纸张名称不能为空"@)
}

pub open spec fn bytes_required() -> ErrorView {
    ErrorView::InvalidParam("打印字节数据不能为空"@)
}

/// The refusal of a payload that one `WritePrinter` call cannot take.
pub open spec fn bytes_too_large() -> ErrorView {
    ErrorView::InvalidParam("打印字节数据过大"@)
}

/// The most bytes that one print job takes: what one `WritePrinter` call can write.
pub const MAX_PRINT_BYTES: usize = 0xFFFF_FFFF;

pub open spec fn path_required() -> ErrorView {
    ErrorView::InvalidParam("文件路径不能为空"@)
}

/// Refuses an empty printer name.
pub fn check_printer_name(name: &str) -> (res: Result<(), PrinterError>)
    ensures
        res is Ok <==> name@.len() > 0,
        name@.len() == 0 ==> fails_with(res, printer_name_required()),
{
    if name.is_empty() {
        Err(PrinterError::InvalidParam(String::from_str("打印机名称不能为空")))
    } else {
        Ok(())
    }
}

/// Refuses an empty printer or paper name.
pub fn check_printer_and_paper(printer_name: &str, paper_name: &str) -> (res: Result<
    (),
    PrinterError,
>)
    ensures
        res is Ok <==> printer_name@.len() > 0 && paper_name@.len() > 0,
        res is Err ==> fails_with(res, names_required()),
{
    if printer_name.is_empty() || paper_name.is_empty() {
        Err(PrinterError::InvalidParam(String::from_str("打印机名称/纸张名称不能为空")))
    } else {
        Ok(())
    }
}

/// Refuses an empty file path.
pub fn check_file_path(path: &str) -> (res: Result<(), PrinterError>)
    ensures
        res is Ok <==> path@.len() > 0,
        path@.len() == 0 ==> fails_with(res, path_required()),
{
    if path.is_empty() {
        Err(PrinterError::InvalidParam(String::from_str("文件路径不能为空")))
    } else {
        Ok(())
    }
}

/// The error for a file that could not be read, with the path and the reason.
pub fn file_read_error(path: &str, reason: &str) -> (res: PrinterError)
    ensures
        res@ == ErrorView::FileReadError("路径: "@ + path@ + "，错误: "@ + reason@),
{
    let mut detail = String::from_str("路径: ");
    detail.append(path);
    detail.append("，错误: ");
    detail.append(reason);
    PrinterError::FileReadError(detail)
}

// ------------------------------------------------------------------ plans

pub open spec fn open_stage(access: PrinterAccess) -> Stage {
    Stage {
        call: Call::OpenPrinter(access),
        check: Check::Opened,
        func: "OpenPrinterW",
        release: Some(Call::ClosePrinter),
    }
}

/// Lists the local and connected printers: asks the size, then fills.
pub open spec fn printer_list_plan() -> Seq<Stage> {
    seq![
        Stage {
            call: Call::EnumPrintersQuery,
            check: Check::SizeQuery { limit: PRINTER_LIST_LIMIT, too_large: Oversize::OutOfMemory },
            func: "EnumPrintersW (1st call)",
            release: None,
        },
        Stage {
            call: Call::EnumPrintersFill,
            check: Check::Succeeded,
            func: "EnumPrintersW (2nd call)",
            release: None,
        },
    ]
}

/// Reads the default printer's name: asks the length, then fills; where no
/// default printer is set, the first call says so and the session ends there.
pub open spec fn default_printer_plan() -> Seq<Stage> {
    seq![
        Stage {
            call: Call::DefaultPrinterQuery,
            check: Check::SizeQueryUnlessAbsent {
                limit: DEFAULT_NAME_LIMIT,
                too_large: Oversize::NameTooLong,
            },
            func: "GetDefaultPrinterW (1st call)",
            release: None,
        },
        Stage {
            call: Call::DefaultPrinterFill,
            check: Check::Succeeded,
            func: "GetDefaultPrinterW (2nd call)",
            release: None,
        },
    ]
}

/// Makes a printer the default.
pub open spec fn set_default_printer_plan() -> Seq<Stage> {
    seq![
        Stage {
            call: Call::SetDefaultPrinter,
            check: Check::Succeeded,
            func: "SetDefaultPrinterW",
            release: None,
        },
    ]
}

/// Reads a printer's level 2 information, which holds its status.
pub open spec fn printer_status_plan() -> Seq<Stage> {
    seq![
        open_stage(PrinterAccess::Use),
        Stage {
            call: Call::PrinterInfo2Query,
            check: Check::SizeQuery { limit: PRINTER_INFO_LIMIT, too_large: Oversize::OutOfMemory },
            func: "GetPrinterW (1st call)",
            release: None,
        },
        Stage {
            call: Call::PrinterInfo2Fill,
            check: Check::Succeeded,
            func: "GetPrinterW (2nd call)",
            release: None,
        },
    ]
}

/// Adds a paper form, replacing one of the same name, and selects it in the
/// printer's device mode.
pub open spec fn add_custom_paper_plan() -> Seq<Stage> {
    seq![
        open_stage(PrinterAccess::AdministerAndUse),
        Stage { call: Call::DeleteForm, check: Check::Ignored, func: "DeleteFormW", release: None },
        Stage { call: Call::AddForm, check: Check::Succeeded, func: "AddFormW", release: None },
        Stage {
            call: Call::DevModeSize,
            check: Check::NonNegative,
            func: "DocumentPropertiesW (get size)",
            release: None,
        },
        Stage {
            call: Call::AllocDevMode,
            check: Check::Allocated,
            func: "CoTaskMemAlloc",
            release: Some(Call::FreeDevMode),
        },
        Stage {
            call: Call::ReadDevMode,
            check: Check::NonNegative,
            func: "DocumentPropertiesW (get devmode)",
            release: None,
        },
        Stage {
            call: Call::WriteDevMode,
            check: Check::NonNegative,
            func: "DocumentPropertiesW (set devmode)",
            release: None,
        },
        Stage {
            call: Call::PrinterInfo9Query,
            check: Check::NeededNonZero,
            func: "GetPrinterW (get PRINTER_INFO_9 size)",
            release: None,
        },
        Stage {
            call: Call::AllocPrinterInfo9,
            check: Check::Allocated,
            func: "CoTaskMemAlloc",
            release: Some(Call::FreePrinterInfo9),
        },
        Stage {
            call: Call::PrinterInfo9Fill,
            check: Check::Succeeded,
            func: "GetPrinterW (PRINTER_INFO_9)",
            release: None,
        },
        Stage {
            call: Call::SetPrinterInfo9,
            check: Check::Succeeded,
            func: "SetPrinterW",
            release: None,
        },
        Stage {
            call: Call::BroadcastSettingChange,
            check: Check::Ignored,
            func: "SendMessageTimeoutW",
            release: None,
        },
    ]
}

/// Deletes a paper form.
pub open spec fn delete_custom_paper_plan() -> Seq<Stage> {
    seq![
        open_stage(PrinterAccess::AdministerAndUse),
        Stage { call: Call::DeleteForm, check: Check::Succeeded, func: "DeleteFormW", release: None },
    ]
}

/// Prints `byte_count` bytes (at most `MAX_PRINT_BYTES`) as one raw document
/// of one page; the job passes only where every byte was written.
pub open spec fn send_bytes_plan(byte_count: usize) -> Seq<Stage> {
    seq![
        open_stage(PrinterAccess::Default),
        Stage {
            call: Call::StartDoc,
            check: Check::Succeeded,
            func: "StartDocPrinterW",
            release: Some(Call::EndDoc),
        },
        Stage {
            call: Call::StartPage,
            check: Check::Succeeded,
            func: "StartPagePrinter",
            release: Some(Call::EndPage),
        },
        Stage {
            call: Call::WritePrinter,
            check: Check::WroteAll { expected: byte_count as u32 },
            func: "WritePrinter",
            release: None,
        },
    ]
}

/// Whether `r` is a fresh session on `plan`.
pub open spec fn starts(r: Result<Session, PrinterError>, plan: Seq<Stage>) -> bool {
    match r {
        Ok(s) => s.plan() == plan && s@ == start_state(plan),
        Err(_) => false,
    }
}

fn open_printer(access: PrinterAccess) -> (res: Stage)
    ensures
        res == open_stage(access),
{
    Stage {
        call: Call::OpenPrinter(access),
        check: Check::Opened,
        func: "OpenPrinterW",
        release: Some(Call::ClosePrinter),
    }
}

/// The session that lists the printers.
pub fn printer_list_session() -> (res: Session)
    ensures
        starts(Ok(res), printer_list_plan()),
{
    let plan = vec![
        Stage {
            call: Call::EnumPrintersQuery,
            check: Check::SizeQuery { limit: PRINTER_LIST_LIMIT, too_large: Oversize::OutOfMemory },
            func: "EnumPrintersW (1st call)",
            release: None,
        },
        Stage {
            call: Call::EnumPrintersFill,
            check: Check::Succeeded,
            func: "EnumPrintersW (2nd call)",
            release: None,
        },
    ];
    assert(plan@ =~= printer_list_plan());
    Session::new(plan)
}

/// The session that reads the default printer's name.
pub fn default_printer_session() -> (res: Session)
    ensures
        starts(Ok(res), default_printer_plan()),
{
    let plan = vec![
        Stage {
            call: Call::DefaultPrinterQuery,
            check: Check::SizeQueryUnlessAbsent {
                limit: DEFAULT_NAME_LIMIT,
                too_large: Oversize::NameTooLong,
            },
            func: "GetDefaultPrinterW (1st call)",
            release: None,
        },
        Stage {
            call: Call::DefaultPrinterFill,
            check: Check::Succeeded,
            func: "GetDefaultPrinterW (2nd call)",
            release: None,
        },
    ];
    assert(plan@ =~= default_printer_plan());
    Session::new(plan)
}

/// The session that makes `printer_name` the default printer; refused where the name is empty.
pub fn set_default_printer_session(printer_name: &str) -> (res: Result<Session, PrinterError>)
    ensures
        printer_name@.len() == 0 ==> fails_with(res, printer_name_required()),
        printer_name@.len() > 0 ==> starts(res, set_default_printer_plan()),
{
    check_printer_name(printer_name)?;
    let plan = vec![
        Stage {
            call: Call::SetDefaultPrinter,
            check: Check::Succeeded,
            func: "SetDefaultPrinterW",
            release: None,
        },
    ];
    assert(plan@ =~= set_default_printer_plan());
    Ok(Session::new(plan))
}

/// The session that reads the status of `printer_name`; refused where the name is empty.
pub fn printer_status_session(printer_name: &str) -> (res: Result<Session, PrinterError>)
    ensures
        printer_name@.len() == 0 ==> fails_with(res, printer_name_required()),
        printer_name@.len() > 0 ==> starts(res, printer_status_plan()),
{
    check_printer_name(printer_name)?;
    let plan = vec![
        open_printer(PrinterAccess::Use),
        Stage {
            call: Call::PrinterInfo2Query,
            check: Check::SizeQuery { limit: PRINTER_INFO_LIMIT, too_large: Oversize::OutOfMemory },
            func: "GetPrinterW (1st call)",
            release: None,
        },
        Stage {
            call: Call::PrinterInfo2Fill,
            check: Check::Succeeded,
            func: "GetPrinterW (2nd call)",
            release: None,
        },
    ];
    assert(plan@ =~= printer_status_plan());
    Ok(Session::new(plan))
}

/// The session that adds paper `paper_name` to `printer_name` and selects it;
/// refused where either name is empty.
pub fn add_custom_paper_session(printer_name: &str, paper_name: &str) -> (res: Result<
    Session,
    PrinterError,
>)
    ensures
        printer_name@.len() == 0 || paper_name@.len() == 0 ==> fails_with(res, names_required()),
        printer_name@.len() > 0 && paper_name@.len() > 0 ==> starts(res, add_custom_paper_plan()),
{
    check_printer_and_paper(printer_name, paper_name)?;
    let plan = vec![
        open_printer(PrinterAccess::AdministerAndUse),
        Stage { call: Call::DeleteForm, check: Check::Ignored, func: "DeleteFormW", release: None },
        Stage { call: Call::AddForm, check: Check::Succeeded, func: "AddFormW", release: None },
        Stage {
            call: Call::DevModeSize,
            check: Check::NonNegative,
            func: "DocumentPropertiesW (get size)",
            release: None,
        },
        Stage {
            call: Call::AllocDevMode,
            check: Check::Allocated,
            func: "CoTaskMemAlloc",
            release: Some(Call::FreeDevMode),
        },
        Stage {
            call: Call::ReadDevMode,
            check: Check::NonNegative,
            func: "DocumentPropertiesW (get devmode)",
            release: None,
        },
        Stage {
            call: Call::WriteDevMode,
            check: Check::NonNegative,
            func: "DocumentPropertiesW (set devmode)",
            release: None,
        },
        Stage {
            call: Call::PrinterInfo9Query,
            check: Check::NeededNonZero,
            func: "GetPrinterW (get PRINTER_INFO_9 size)",
            release: None,
        },
        Stage {
            call: Call::AllocPrinterInfo9,
            check: Check::Allocated,
            func: "CoTaskMemAlloc",
            release: Some(Call::FreePrinterInfo9),
        },
        Stage {
            call: Call::PrinterInfo9Fill,
            check: Check::Succeeded,
            func: "GetPrinterW (PRINTER_INFO_9)",
            release: None,
        },
        Stage {
            call: Call::SetPrinterInfo9,
            check: Check::Succeeded,
            func: "SetPrinterW",
            release: None,
        },
        Stage {
            call: Call::BroadcastSettingChange,
            check: Check::Ignored,
            func: "SendMessageTimeoutW",
            release: None,
        },
    ];
    assert(plan@ =~= add_custom_paper_plan());
    Ok(Session::new(plan))
}

/// The session that deletes paper `paper_name` from `printer_name`; refused
/// where either name is empty.
pub fn delete_custom_paper_session(printer_name: &str, paper_name: &str) -> (res: Result<
    Session,
    PrinterError,
>)
    ensures
        printer_name@.len() == 0 || paper_name@.len() == 0 ==> fails_with(res, names_required()),
        printer_name@.len() > 0 && paper_name@.len() > 0 ==> starts(
            res,
            delete_custom_paper_plan(),
        ),
{
    check_printer_and_paper(printer_name, paper_name)?;
    let plan = vec![
        open_printer(PrinterAccess::AdministerAndUse),
        Stage { call: Call::DeleteForm, check: Check::Succeeded, func: "DeleteFormW", release: None },
    ];
    assert(plan@ =~= delete_custom_paper_plan());
    Ok(Session::new(plan))
}

/// The session that prints `byte_count` bytes on `printer_name`; refused where
/// the name is empty, then where there are no bytes, then where there are more
/// than one write can take.
pub fn send_bytes_session(printer_name: &str, byte_count: usize) -> (res: Result<
    Session,
    PrinterError,
>)
    ensures
        printer_name@.len() == 0 ==> fails_with(res, printer_name_required()),
        printer_name@.len() > 0 && byte_count == 0 ==> fails_with(res, bytes_required()),
        printer_name@.len() > 0 && byte_count > MAX_PRINT_BYTES ==> fails_with(
            res,
            bytes_too_large(),
        ),
        printer_name@.len() > 0 && 0 < byte_count <= MAX_PRINT_BYTES ==> starts(
            res,
            send_bytes_plan(byte_count),
        ),
        res is Ok ==> 0 < byte_count <= MAX_PRINT_BYTES,
{
    check_printer_name(printer_name)?;
    if byte_count == 0 {
        return Err(PrinterError::InvalidParam(String::from_str("打印字节数据不能为空")));
    }
    if byte_count > MAX_PRINT_BYTES {
        return Err(PrinterError::InvalidParam(String::from_str("打印字节数据过大")));
    }
    let expected = byte_count as u32;
    let plan = vec![
        open_printer(PrinterAccess::Default),
        Stage {
            call: Call::StartDoc,
            check: Check::Succeeded,
            func: "StartDocPrinterW",
            release: Some(Call::EndDoc),
        },
        Stage {
            call: Call::StartPage,
            check: Check::Succeeded,
            func: "StartPagePrinter",
            release: Some(Call::EndPage),
        },
        Stage {
            call: Call::WritePrinter,
            check: Check::WroteAll { expected },
            func: "WritePrinter",
            release: None,
        },
    ];
    assert(plan@ =~= send_bytes_plan(byte_count));
    Ok(Session::new(plan))
}

/// The session that prints the string `s` on `printer_name`, with the bytes it
/// prints: refused where `s` is empty, then where a character of it has no
/// Windows-1252 byte; otherwise it is exactly the session that prints the
/// Windows-1252 bytes of `s` (refused as that one is), and those bytes are
/// returned with it; for ASCII text they are the text's own bytes.
pub fn send_string_session(printer_name: &str, s: &str) -> (res: Result<
    (Vec<u8>, Session),
    PrinterError,
>)
    requires
        encoding_fits(s),
    ensures
        s@.len() == 0 ==> fails_with(res, ErrorView::InvalidParam("打印字符串不能为空"@)),
        s@.len() > 0 && !encodable(s@) ==> fails_with(res, ErrorView::EncodingError),
        s@.len() > 0 && encodable(s@) && printer_name@.len() == 0 ==> fails_with(
            res,
            printer_name_required(),
        ),
        s@.len() > 0 && encodable(s@) && printer_name@.len() > 0 && s@.len() > MAX_PRINT_BYTES
            ==> fails_with(res, bytes_too_large()),
        s@.len() > 0 && encodable(s@) && printer_name@.len() > 0 && s@.len() <= MAX_PRINT_BYTES
            ==> (res matches Ok((bytes, session)) && bytes@ == windows_1252_bytes(s@) && starts(
            Ok(session),
            send_bytes_plan(bytes@.len() as usize),
        )),
        s@.len() > 0 && vstd::utf8::is_ascii_chars(s@) && printer_name@.len() > 0 && s@.len()
            <= MAX_PRINT_BYTES ==> (res matches Ok((bytes, session)) && bytes@ == ascii_bytes(s@)),
{
    let bytes = string_payload(s)?;
    let session = send_bytes_session(printer_name, bytes.len())?;
    Ok((bytes, session))
}

/// The name under which raw documents are spooled, in the form the spooler takes.
pub fn raw_document_name() -> (res: Vec<u16>)
    ensures
        res@ == utf16_encode("Flutter-Rust RAW Document"@).push(0),
{
    str_to_utf16("Flutter-Rust RAW Document")
}

/// The data type of raw documents, in the form the spooler takes.
pub fn raw_data_type() -> (res: Vec<u16>)
    ensures
        res@ == utf16_encode("RAW"@).push(0),
{
    str_to_utf16("RAW")
}

// ------------------------------------------------------------------ results

/// The most UTF-16 units of a listed printer's name that are read.
pub const MAX_NAME_UNITS: usize = 4096;

/// The length of a name held in `units` from position `i` on: it ends at the
/// first NUL, at the end of the units, or after `MAX_NAME_UNITS` units.
pub open spec fn name_length_from(units: Seq<u16>, i: nat) -> nat
    decreases units.len() - i,
{
    if i >= units.len() || i >= MAX_NAME_UNITS || units[i as int] == 0 {
        i
    } else {
        name_length_from(units, i + 1)
    }
}

/// The units of the name that `units` holds: those before the first NUL, at
/// most `MAX_NAME_UNITS` of them.
pub open spec fn name_units(units: Seq<u16>) -> Seq<u16> {
    units.subrange(0, name_length_from(units, 0) as int)
}

proof fn lemma_name_length_bound(units: Seq<u16>, i: nat)
    requires
        i <= units.len(),
    ensures
        i <= name_length_from(units, i) <= units.len(),
    decreases units.len() - i,
{
    if !(i >= units.len() || i >= MAX_NAME_UNITS || units[i as int] == 0) {
        lemma_name_length_bound(units, i + 1);
    }
}

/// The length of the name that `units` holds.
fn name_length(units: &[u16]) -> (res: usize)
    ensures
        res == name_length_from(units@, 0),
{
    let mut i: usize = 0;
    while i < units.len() && i < MAX_NAME_UNITS && units[i] != 0
        invariant
            i <= units@.len(),
            i <= MAX_NAME_UNITS,
            name_length_from(units@, 0) == name_length_from(units@, i as nat),
        decreases units@.len() - i,
    {
        i = i + 1;
    }
    i
}

/// The names of the listed printers: each entry that has a name (`Some`)
/// whose units up to the NUL (at most `MAX_NAME_UNITS`) are valid UTF-16 gives
/// that name, in order; the others are skipped.
pub open spec fn listed_names(entries: Seq<Option<Seq<u16>>>) -> Seq<Seq<char>>
    decreases entries.len(),
{
    if entries.len() == 0 {
        Seq::empty()
    } else {
        let rest = listed_names(entries.drop_last());
        match entries.last() {
            Some(units) => match utf16_decode(name_units(units)) {
                Some(name) => rest.push(name),
                None => rest,
            },
            None => rest,
        }
    }
}

/// Whether an entry of the listing has a name whose units, up to the NUL and
/// at most `MAX_NAME_UNITS` of them, are valid UTF-16.
pub open spec fn readable_entry(e: Option<Seq<u16>>) -> bool {
    match e {
        Some(units) => utf16_decode(name_units(units)) is Some,
        None => false,
    }
}

/// The name that a readable entry decodes to.
pub open spec fn entry_name(e: Option<Seq<u16>>) -> Seq<char> {
    utf16_decode(name_units(e->0))->0
}

/// Law: the name of an entry ends at its first NUL, or after `MAX_NAME_UNITS`
/// units, or where the units read end: it is a prefix of them with no NUL,
/// and where it is shorter than both the units read and the limit, a NUL
/// follows it.
pub proof fn lemma_name_units(units: Seq<u16>)
    ensures
        name_units(units).len() <= units.len(),
        name_units(units).len() <= MAX_NAME_UNITS,
        name_units(units) == units.subrange(0, name_units(units).len() as int),
        forall|i: int| 0 <= i < name_units(units).len() ==> #[trigger] name_units(units)[i] != 0,
        name_units(units).len() < units.len() && name_units(units).len() < MAX_NAME_UNITS
            ==> units[name_units(units).len() as int] == 0,
{
    lemma_name_length_bound(units, 0);
    lemma_name_length_scan(units, 0);
}

proof fn lemma_name_length_scan(units: Seq<u16>, i: nat)
    requires
        i <= units.len(),
        i <= MAX_NAME_UNITS,
        forall|j: int| 0 <= j < i ==> units[j] != 0,
    ensures
        name_length_from(units, i) <= MAX_NAME_UNITS,
        forall|j: int| 0 <= j < name_length_from(units, i) ==> units[j] != 0,
        name_length_from(units, i) < units.len() && name_length_from(units, i) < MAX_NAME_UNITS
            ==> units[name_length_from(units, i) as int] == 0,
    decreases units.len() - i,
{
    if !(i >= units.len() || i >= MAX_NAME_UNITS || units[i as int] == 0) {
        lemma_name_length_scan(units, i + 1);
    }
}

/// Law: the printers listed are exactly the entries whose names can be read,
/// in the order of the listing, each as the name it decodes to: none is
/// dropped, none added, none reordered.
pub proof fn lemma_listed_names(entries: Seq<Option<Seq<u16>>>)
    ensures
        listed_names(entries) == entries.filter(|e: Option<Seq<u16>>| readable_entry(e)).map_values(
            |e: Option<Seq<u16>>| entry_name(e),
        ),
    decreases entries.len(),
{
    reveal(Seq::filter);
    let pred = |e: Option<Seq<u16>>| readable_entry(e);
    let f = |e: Option<Seq<u16>>| entry_name(e);
    if entries.len() == 0 {
        assert(entries.filter(pred).map_values(f) =~= Seq::<Seq<char>>::empty());
    } else {
        lemma_listed_names(entries.drop_last());
        let sub = entries.drop_last().filter(pred);
        if pred(entries.last()) {
            assert(sub.push(entries.last()).map_values(f) =~= sub.map_values(f).push(
                f(entries.last()),
            ));
        }
    }
}

pub open spec fn entry_units(e: Option<Vec<u16>>) -> Option<Seq<u16>> {
    match e {
        Some(v) => Some(v@),
        None => None,
    }
}

pub open spec fn string_views(v: Seq<String>) -> Seq<Seq<char>> {
    v.map_values(|s: String| s@)
}

/// The names of the printers that the list holds: `entries` holds, for each
/// printer, the UTF-16 units read of its name (or `None` where it has no
/// name); each name ends at its first NUL and after `MAX_NAME_UNITS` units.
pub fn printer_names(entries: &Vec<Option<Vec<u16>>>) -> (res: Vec<String>)
    ensures
        string_views(res@) == listed_names(entries@.map_values(|e: Option<Vec<u16>>| entry_units(e))),
        string_views(res@) == entries@.map_values(|e: Option<Vec<u16>>| entry_units(e)).filter(
            |e: Option<Seq<u16>>| readable_entry(e),
        ).map_values(|e: Option<Seq<u16>>| entry_name(e)),
{
    proof {
        lemma_listed_names(entries@.map_values(|e: Option<Vec<u16>>| entry_units(e)));
    }
    let ghost units = entries@.map_values(|e: Option<Vec<u16>>| entry_units(e));
    let mut names: Vec<String> = Vec::new();
    let mut i: usize = 0;
    while i < entries.len()
        invariant
            i <= entries@.len(),
            units == entries@.map_values(|e: Option<Vec<u16>>| entry_units(e)),
            string_views(names@) == listed_names(units.take(i as int)),
        decreases entries.len() - i,
    {
        proof {
            assert(units.take(i + 1).drop_last() =~= units.take(i as int));
            assert(units.take(i + 1).last() == entry_units(entries@[i as int]));
        }
        match &entries[i] {
            Some(read) => {
                let n = name_length(read.as_slice());
                proof {
                    lemma_name_length_bound(read@, 0);
                }
                let decoded = string_from_utf16(&read.as_slice()[0..n]);
                assert(read@.subrange(0, n as int) == name_units(read@));
                match decoded {
                    Some(name) => {
                        names.push(name);
                        assert(string_views(names@) =~= listed_names(units.take(i as int)).push(
                            name@,
                        ));
                    },
                    None => {},
                }
            },
            None => {},
        }
        i = i + 1;
    }
    assert(units.take(entries@.len() as int) =~= units);
    names
}

/// Whether `name` is among the printers listed.
pub fn printer_listed(printers: &Vec<String>, name: &str) -> (res: bool)
    ensures
        res == string_views(printers@).contains(name@),
{
    let target = String::from_str(name);
    let mut i: usize = 0;
    while i < printers.len()
        invariant
            i <= printers@.len(),
            target@ == name@,
            forall|j: int| 0 <= j < i ==> printers@[j]@ != name@,
        decreases printers.len() - i,
    {
        if printers[i] == target {
            assert(string_views(printers@)[i as int] == name@);
            return true;
        }
        i = i + 1;
    }
    proof {
        if string_views(printers@).contains(name@) {
            let j = choose|j: int|
                0 <= j < string_views(printers@).len() && string_views(printers@)[j] == name@;
            assert(printers@[j]@ == name@);
        }
    }
    false
}

/// The default printer's name once its session has ended: none where the
/// session did not complete (it ended early, as no default printer is set);
/// otherwise read from the buffer that `GetDefaultPrinterW` filled and the
/// length it reported, its NUL included: none where either is empty, else the
/// characters before the NUL, or `EncodingError` where they are not valid UTF-16.
pub fn default_printer_name(session_completed: bool, buffer: &[u16], reported: u32) -> (res: Result<
    Option<String>,
    PrinterError,
>)
    requires
        session_completed ==> reported == 0 || buffer@.len() == 0 || reported - 1 <= buffer@.len(),
    ensures
        !session_completed ==> res matches Ok(None),
        session_completed && (reported == 0 || buffer@.len() == 0) ==> res matches Ok(None),
        session_completed && reported > 0 && buffer@.len() > 0 ==> ({
            let units = buffer@.subrange(0, reported - 1);
            &&& utf16_decode(units) is Some ==> (res matches Ok(Some(name)) && name@ == utf16_decode(
                units,
            )->0)
            &&& utf16_decode(units) is None ==> fails_with(res, ErrorView::EncodingError)
        }),
{
    if !session_completed || reported == 0 || buffer.len() == 0 {
        return Ok(None);
    }
    let units = &buffer[0..(reported - 1) as usize];
    match string_from_utf16(units) {
        Some(name) => Ok(Some(name)),
        None => Err(PrinterError::EncodingError),
    }
}

/// Law: where no default printer is set, so that the first `GetDefaultPrinterW`
/// call fails with `ERROR_FILE_NOT_FOUND`, reading the default printer makes
/// that one call, finishes with success without completing, and so reads as
/// no default printer (`default_printer_name` gives `Ok(None)`).
pub proof fn lemma_no_default_printer(os: Seq<Outcome>)
    requires
        os.len() >= 1,
        os[0].ret == 0,
        os[0].last_error == ERROR_FILE_NOT_FOUND,
    ensures
        ({
            let plan = default_printer_plan();
            let (trace, fin) = run(plan, start_state(plan), os);
            &&& trace == seq![Call::DefaultPrinterQuery]
            &&& fin matches Some(f) && f.phase != Phase::Unwinding(None) && next_action(plan, f)
                == ActionView::Finish(Ok(()))
        }),
{
    let plan = default_printer_plan();
    assert(!passes(plan, os, 0));
    assert(first_failure(plan, os) == 0);
    assert(releases(plan, 0) =~= Seq::<Call>::empty());
    assert(stage_calls(plan.subrange(0, 1)) =~= seq![Call::DefaultPrinterQuery]);
    assert(expected_trace(plan, os) =~= seq![Call::DefaultPrinterQuery]);
    lemma_session_brackets(plan, os);
}

/// Law: a raw print job opens the printer, starts the document, starts the
/// page and writes the bytes, stopping at the first of these calls that fails;
/// then it ends the page only where the page was started, ends the document
/// only where it was started, and closes the printer only where it was opened,
/// in that order. It succeeds exactly where all four calls passed, and
/// otherwise reports the failure of the call that failed. The write passes
/// only where it succeeded and wrote every one of the bytes, so a short write
/// is a failure, never a success.
pub proof fn lemma_print_job_brackets(byte_count: usize, os: Seq<Outcome>)
    requires
        0 < byte_count <= MAX_PRINT_BYTES,
        os.len() >= 7,
    ensures
        ({
            let plan = send_bytes_plan(byte_count);
            let (trace, fin) = run(plan, start_state(plan), os);
            &&& passes(plan, os, 3) <==> os[3].ret != 0 && os[3].out as int == byte_count as int
            &&& !passes(plan, os, 0) ==> trace == seq![Call::OpenPrinter(PrinterAccess::Default)]
            &&& passes(plan, os, 0) && !passes(plan, os, 1) ==> trace == seq![
                Call::OpenPrinter(PrinterAccess::Default),
                Call::StartDoc,
                Call::ClosePrinter,
            ]
            &&& passes(plan, os, 0) && passes(plan, os, 1) && !passes(plan, os, 2) ==> trace
                == seq![
                Call::OpenPrinter(PrinterAccess::Default),
                Call::StartDoc,
                Call::StartPage,
                Call::EndDoc,
                Call::ClosePrinter,
            ]
            &&& passes(plan, os, 0) && passes(plan, os, 1) && passes(plan, os, 2) ==> trace
                == seq![
                Call::OpenPrinter(PrinterAccess::Default),
                Call::StartDoc,
                Call::StartPage,
                Call::WritePrinter,
                Call::EndPage,
                Call::EndDoc,
                Call::ClosePrinter,
            ]
            &&& fin matches Some(f) && next_action(plan, f) == ActionView::Finish(
                expected_result(plan, os),
            )
            &&& expected_result(plan, os) is Ok <==> (forall|i: int|
                0 <= i < 4 ==> #[trigger] passes(plan, os, i))
            &&& forall|i: int|
                0 <= i < 4 && !passes(plan, os, i) && (forall|j: int|
                    0 <= j < i ==> #[trigger] passes(plan, os, j)) ==> expected_result(plan, os)
                    == Err::<(), ErrorView>(verdict(plan[i], os[i])->0)
        }),
{
    let plan = send_bytes_plan(byte_count);
    let k = first_failure(plan, os);
    assert(plan.len() == 4);
    let r0 = releases(plan, 0);
    let r1 = releases(plan, 1);
    let r2 = releases(plan, 2);
    let r3 = releases(plan, 3);
    let r4 = releases(plan, 4);
    assert(r0 =~= Seq::<Call>::empty());
    assert(r1 =~= seq![Call::ClosePrinter]);
    assert(r2 =~= seq![Call::ClosePrinter, Call::EndDoc]);
    assert(r3 =~= seq![Call::ClosePrinter, Call::EndDoc, Call::EndPage]);
    assert(r4 =~= r3);
    assert(first_failure_from(plan, os, 4) == 4);
    if !passes(plan, os, 0) {
        assert(k == 0);
        assert(stage_calls(plan.subrange(0, 1)) =~= seq![Call::OpenPrinter(PrinterAccess::Default)]);
        assert(expected_trace(plan, os) =~= seq![Call::OpenPrinter(PrinterAccess::Default)]);
    } else if !passes(plan, os, 1) {
        assert(first_failure_from(plan, os, 1) == 1);
        assert(k == 1);
        assert(stage_calls(plan.subrange(0, 2)) =~= seq![
            Call::OpenPrinter(PrinterAccess::Default),
            Call::StartDoc,
        ]);
        assert(r1.reverse() =~= seq![Call::ClosePrinter]);
    } else if !passes(plan, os, 2) {
        assert(first_failure_from(plan, os, 2) == 2);
        assert(first_failure_from(plan, os, 1) == 2);
        assert(k == 2);
        assert(stage_calls(plan.subrange(0, 3)) =~= seq![
            Call::OpenPrinter(PrinterAccess::Default),
            Call::StartDoc,
            Call::StartPage,
        ]);
        assert(r2.reverse() =~= seq![Call::EndDoc, Call::ClosePrinter]);
    } else {
        assert(stage_calls(plan.subrange(0, 4)) =~= seq![
            Call::OpenPrinter(PrinterAccess::Default),
            Call::StartDoc,
            Call::StartPage,
            Call::WritePrinter,
        ]);
        assert(r3.reverse() =~= seq![Call::EndPage, Call::EndDoc, Call::ClosePrinter]);
        if !passes(plan, os, 3) {
            assert(first_failure_from(plan, os, 3) == 3);
        } else {
            assert(first_failure_from(plan, os, 3) == 4);
        }
        assert(first_failure_from(plan, os, 2) == first_failure_from(plan, os, 3));
        assert(first_failure_from(plan, os, 1) == first_failure_from(plan, os, 3));
    }
    assert(expected_trace(plan, os).len() <= 7);
    lemma_session_brackets(plan, os);
}

/// Law: where the spooler fills the default printer's buffer with a name in
/// the form in which names are handed to it (UTF-16 and a NUL) and reports
/// that length, the name read back is that name: the units that
/// `default_printer_name` decodes are the name's, and they decode to it.
pub proof fn lemma_default_name_read_back(name: Seq<char>, buffer: Seq<u16>, reported: u32)
    requires
        buffer == utf16_encode(name).push(0),
        reported == buffer.len(),
    ensures
        reported > 0 && buffer.len() > 0,
        buffer.subrange(0, reported - 1) == utf16_encode(name),
        utf16_decode(buffer.subrange(0, reported - 1)) == Some(name),
{
    assert(buffer.subrange(0, reported - 1) =~= utf16_encode(name));
    lemma_utf16_round_trip(name);
}

} // verus!
