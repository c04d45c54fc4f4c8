use printer_module::error::{decimal_text, PrinterError};
use printer_module::form::{cotask_allocation, devmode_allocation, paper_form, select_form, DM_FORMNAME, RECTW, SIZEW};
use printer_module::payload::string_payload;
use printer_module::printer::{
    check_file_path, check_printer_and_paper, check_printer_name, default_printer_name,
    file_read_error, printer_listed, printer_names, raw_data_type, raw_document_name,
    MAX_NAME_UNITS,
};
use printer_module::status::printer_status_text;
use printer_module::text::str_to_utf16;

#[test]
fn messages_of_each_error() {
    let e = PrinterError::WinApiError { func: "OpenPrinterW", code: 1801 };
    assert_eq!(e.message(), "Windows API 调用失败: OpenPrinterW (错误码: 1801)");
    assert_eq!(PrinterError::MemoryAllocFailed.message(), "内存分配失败");
    assert_eq!(PrinterError::PrinterNotFound("HP".to_string()).message(), "打印机未找到: HP");
    assert_eq!(PrinterError::FileReadError("x".to_string()).message(), "文件读取失败: x");
    assert_eq!(PrinterError::EncodingError.message(), "字符串编码失败");
    assert_eq!(PrinterError::InvalidParam("y".to_string()).message(), "无效参数: y");
    assert_eq!(PrinterError::UnsupportedOs.message(), "仅支持 Windows 系统");
}

#[test]
fn decimal_notation() {
    assert_eq!(decimal_text(0), "0");
    assert_eq!(decimal_text(7), "7");
    assert_eq!(decimal_text(10), "10");
    assert_eq!(decimal_text(122), "122");
    assert_eq!(decimal_text(u32::MAX), "4294967295");
}

#[test]
fn status_texts() {
    assert_eq!(printer_status_text(0), "准备就绪（Ready）");
    assert_eq!(printer_status_text(0x200), "忙(Busy）");
    assert_eq!(printer_status_text(0x80), "脱机（Off Line）");
    assert_eq!(printer_status_text(0x10), "打印纸用完（Paper Out）");
    assert_eq!(printer_status_text(0x20000000), "等待（Waiting）");
    assert_eq!(printer_status_text(0x00010000), "正在准备（Warming Up）");
    assert_eq!(printer_status_text(0x90), "未知状态（Unknown Status）");
    assert_eq!(printer_status_text(0x3), "未知状态（Unknown Status）");
}

#[test]
fn utf16_names_end_with_nul() {
    assert_eq!(str_to_utf16(""), vec![0]);
    assert_eq!(str_to_utf16("abc"), vec![0x61, 0x62, 0x63, 0]);
    assert_eq!(str_to_utf16("打印"), vec![0x6253, 0x5370, 0]);
    assert_eq!(str_to_utf16("\u{1F600}"), vec![0xD83D, 0xDE00, 0]);
    let via_std: Vec<u16> = "Zebra ZD420 (副本)".encode_utf16().chain(Some(0)).collect();
    assert_eq!(str_to_utf16("Zebra ZD420 (副本)"), via_std);
}

#[test]
fn string_payload_encodes_windows_1252() {
    assert_eq!(string_payload("ABC\r\n"), Ok(b"ABC\r\n".to_vec()));
    assert_eq!(string_payload("é€"), Ok(vec![0xE9, 0x80]));
    assert_eq!(string_payload("\u{0081}"), Ok(vec![0x81]));
    assert_eq!(string_payload("Š™\u{00FF}\u{00A0}"), Ok(vec![0x8A, 0x99, 0xFF, 0xA0]));
    assert_eq!(string_payload("\u{0080}"), Err(PrinterError::EncodingError));
    assert_eq!(string_payload("中"), Err(PrinterError::EncodingError));
    assert_eq!(string_payload("a\u{1F600}"), Err(PrinterError::EncodingError));
    assert_eq!(
        string_payload(""),
        Err(PrinterError::InvalidParam("打印字符串不能为空".to_string()))
    );
}

#[test]
fn form_name_short_name() {
    let mut fields: u32 = 0xFFFF;
    let mut name = [7u16; 32];
    select_form(&mut fields, &mut name, "A4");
    assert_eq!(fields, DM_FORMNAME);
    assert_eq!(&name[..3], &[0x41, 0x34, 0]);
    assert!(name[3..31].iter().all(|&u| u == 7));
    assert_eq!(name[31], 0);
}

#[test]
fn form_name_long_name_is_cut() {
    let mut fields: u32 = 0;
    let mut name = [7u16; 32];
    let long = "abcdefghijklmnopqrstuvwxyz0123456789";
    select_form(&mut fields, &mut name, long);
    let units: Vec<u16> = long.encode_utf16().collect();
    assert_eq!(&name[..31], &units[..31]);
    assert_eq!(name[31], 0);
}

#[test]
fn paper_form_covers_sheet() {
    let form = paper_form(80000, 50000);
    assert_eq!(form.flags, 0);
    assert_eq!(form.size, SIZEW { cx: 80000, cy: 50000 });
    assert_eq!(form.imageable_area, RECTW { left: 0, top: 0, right: 80000, bottom: 50000 });
}

#[test]
fn allocation_limits() {
    assert_eq!(devmode_allocation(220), Some(320));
    assert_eq!(devmode_allocation(-1), None);
    assert_eq!(devmode_allocation(104857500), Some(104857600));
    assert_eq!(devmode_allocation(104857501), None);
    assert_eq!(cotask_allocation(8), Some(8));
    assert_eq!(cotask_allocation(104857600), Some(104857600));
    assert_eq!(cotask_allocation(104857601), None);
}

#[test]
fn names_from_listing_skip_invalid() {
    let hp: Vec<u16> = "HP LaserJet".encode_utf16().collect();
    let canon: Vec<u16> = "佳能".encode_utf16().collect();
    let entries = vec![Some(hp), None, Some(vec![0xD800, 0x41]), Some(canon)];
    assert_eq!(printer_names(&entries), vec!["HP LaserJet".to_string(), "佳能".to_string()]);
    assert_eq!(printer_names(&Vec::new()), Vec::<String>::new());
}

#[test]
fn names_end_at_nul_and_are_cut() {
    let mut with_nul: Vec<u16> = "HP".encode_utf16().collect();
    with_nul.extend([0, 0x41, 0x42]);
    let long: Vec<u16> = vec![0x61; 5000];
    let names = printer_names(&vec![Some(with_nul), Some(long)]);
    assert_eq!(names.len(), 2);
    assert_eq!(names[0], "HP");
    assert_eq!(names[1], "a".repeat(MAX_NAME_UNITS));
}

#[test]
fn raw_document_texts() {
    let name: Vec<u16> = "Flutter-Rust RAW Document".encode_utf16().chain(Some(0)).collect();
    assert_eq!(raw_document_name(), name);
    assert_eq!(raw_data_type(), vec![0x52, 0x41, 0x57, 0]);
}

#[test]
fn listed_printer_lookup() {
    let printers = vec!["HP".to_string(), "Canon".to_string()];
    assert!(printer_listed(&printers, "Canon"));
    assert!(!printer_listed(&printers, "canon"));
    assert!(!printer_listed(&printers, "HP "));
    assert!(!printer_listed(&Vec::new(), "HP"));
}

#[test]
fn default_printer_name_from_buffer() {
    let buffer = str_to_utf16("HP 打印机");
    let reported = buffer.len() as u32;
    assert_eq!(default_printer_name(true, &buffer, reported), Ok(Some("HP 打印机".to_string())));
    assert_eq!(default_printer_name(true, &buffer, 0), Ok(None));
    assert_eq!(default_printer_name(true, &[], 5), Ok(None));
    assert_eq!(default_printer_name(true, &[0xDC00, 0], 2), Err(PrinterError::EncodingError));
    assert_eq!(default_printer_name(true, &[0], 1), Ok(Some(String::new())));
    assert_eq!(default_printer_name(false, &buffer, reported), Ok(None));
}

#[test]
fn parameter_checks() {
    assert_eq!(check_printer_name("HP"), Ok(()));
    assert_eq!(
        check_printer_name(""),
        Err(PrinterError::InvalidParam("打印机名称不能为空".to_string()))
    );
    assert_eq!(check_printer_and_paper("HP", "A4"), Ok(()));
    assert_eq!(
        check_file_path(""),
        Err(PrinterError::InvalidParam("文件路径不能为空".to_string()))
    );
    assert_eq!(check_file_path("a.prn"), Ok(()));
}

#[test]
fn file_read_error_text() {
    assert_eq!(
        file_read_error("a.prn", "No such file"),
        PrinterError::FileReadError("路径: a.prn，错误: No such file".to_string())
    );
}
