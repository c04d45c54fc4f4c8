use vstd::prelude::*;
use vstd::string::*;

verus! {

/// The errors that the printer operations report.
#[derive(Clone, Debug, PartialEq)]
pub enum PrinterError {
    /// A spooler call failed; `func` names the call, `code` is the system error code.
    WinApiError { func: &'static str, code: u32 },
    MemoryAllocFailed,
    PrinterNotFound(String),
    FileReadError(String),
    EncodingError,
    InvalidParam(String),
    UnsupportedOs,
}

/// The character of a decimal digit.
pub open spec fn digit_char(d: nat) -> char {
    ('0' as nat + d) as char
}

/// The decimal notation of `n`, most significant digit first, without leading zeros.
pub open spec fn decimal(n: nat) -> Seq<char>
    decreases n,
{
    if n < 10 {
        seq![digit_char(n)]
    } else {
        decimal(n / 10).push(digit_char(n % 10))
    }
}

/// What an error says, with each text taken by its characters.
pub enum ErrorView {
    WinApiError { func: Seq<char>, code: u32 },
    MemoryAllocFailed,
    PrinterNotFound(Seq<char>),
    FileReadError(Seq<char>),
    EncodingError,
    InvalidParam(Seq<char>),
    UnsupportedOs,
}

impl View for PrinterError {
    type V = ErrorView;

    open spec fn view(&self) -> ErrorView {
        match self {
            PrinterError::WinApiError { func, code } => ErrorView::WinApiError {
                func: func@,
                code: *code,
            },
            PrinterError::MemoryAllocFailed => ErrorView::MemoryAllocFailed,
            PrinterError::PrinterNotFound(name) => ErrorView::PrinterNotFound(name@),
            PrinterError::FileReadError(detail) => ErrorView::FileReadError(detail@),
            PrinterError::EncodingError => ErrorView::EncodingError,
            PrinterError::InvalidParam(detail) => ErrorView::InvalidParam(detail@),
            PrinterError::UnsupportedOs => ErrorView::UnsupportedOs,
        }
    }
}

/// The view of an optional error.
pub open spec fn error_option_view(e: Option<PrinterError>) -> Option<ErrorView> {
    match e {
        Some(e) => Some(e@),
        None => None,
    }
}

/// Whether `r` is the failure `e`.
pub open spec fn fails_with<T>(r: Result<T, PrinterError>, e: ErrorView) -> bool {
    match r {
        Err(x) => x@ == e,
        Ok(_) => false,
    }
}

/// The view of the outcome of an operation that returns nothing on success.
pub open spec fn unit_result_view(r: Result<(), PrinterError>) -> Result<(), ErrorView> {
    match r {
        Ok(()) => Ok(()),
        Err(e) => Err(e@),
    }
}

/// The text that the error displays.
pub open spec fn error_message(e: ErrorView) -> Seq<char> {
    match e {
        ErrorView::WinApiError { func, code } => "Windows API 调用失败: "@ + func + " (错误码: "@
            + decimal(code as nat) + ")"@,
        ErrorView::MemoryAllocFailed => "内存分配失败"@,
        ErrorView::PrinterNotFound(name) => "打印机未找到: "@ + name,
        ErrorView::FileReadError(detail) => "文件读取失败: "@ + detail,
        ErrorView::EncodingError => "字符串编码失败"@,
        ErrorView::InvalidParam(detail) => "无效参数: "@ + detail,
        ErrorView::UnsupportedOs => "仅支持 Windows 系统"@,
    }
}

fn digit_text(d: u32) -> (res: &'static str)
    requires
        d < 10,
    ensures
        res@ == seq![digit_char(d as nat)],
{
    proof {
        reveal_strlit("0");
        reveal_strlit("1");
        reveal_strlit("2");
        reveal_strlit("3");
        reveal_strlit("4");
        reveal_strlit("5");
        reveal_strlit("6");
        reveal_strlit("7");
        reveal_strlit("8");
        reveal_strlit("9");
    }
    match d {
        0 => "0",
        1 => "1",
        2 => "2",
        3 => "3",
        4 => "4",
        5 => "5",
        6 => "6",
        7 => "7",
        8 => "8",
        _ => "9",
    }
}

/// The decimal notation of `n`, as `u32`'s `Display` writes it.
pub fn decimal_text(n: u32) -> (res: String)
    ensures
        res@ == decimal(n as nat),
    decreases n,
{
    if n < 10 {
        String::from_str(digit_text(n))
    } else {
        let mut s = decimal_text(n / 10);
        s.append(digit_text(n % 10));
        s
    }
}

impl PrinterError {
    /// The message of the error, the text that callers on the other side of the bridge receive.
    pub fn message(&self) -> (res: String)
        ensures
            res@ == error_message(self@),
    {
        match self {
            PrinterError::WinApiError { func, code } => {
                let mut s = String::from_str("Windows API 调用失败: ");
                s.append(func);
                s.append(" (错误码: ");
                let digits = decimal_text(*code);
                s.append(digits.as_str());
                s.append(")");
                s
            },
            PrinterError::MemoryAllocFailed => String::from_str("内存分配失败"),
            PrinterError::PrinterNotFound(name) => {
                let mut s = String::from_str("打印机未找到: ");
                s.append(name.as_str());
                s
            },
            PrinterError::FileReadError(detail) => {
                let mut s = String::from_str("文件读取失败: ");
                s.append(detail.as_str());
                s
            },
            PrinterError::EncodingError => String::from_str("字符串编码失败"),
            PrinterError::InvalidParam(detail) => {
                let mut s = String::from_str("无效参数: ");
                s.append(detail.as_str());
                s
            },
            PrinterError::UnsupportedOs => String::from_str("仅支持 Windows 系统"),
        }
    }
}

} // verus!
