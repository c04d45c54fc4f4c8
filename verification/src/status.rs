//! The text that a printer's status word reads as.

use vstd::prelude::*;
use vstd::string::*;

verus! {

/// The text of a `PRINTER_INFO_2` status word. A word with exactly one known
/// flag, or zero, has its own text; any other word is unknown.
pub open spec fn status_text(status: u32) -> Seq<char> {
    match status {
        0 => "准备就绪（Ready）"@,
        0x00000200 => "忙(Busy）"@,
        0x00400000 => "门被打开（Printer Door Open）"@,
        0x00000002 => "错误(Printer Error）"@,
        0x00008000 => "正在初始化(Initializing）"@,
        0x00000100 => "正在输入或输出（I/O Active）"@,
        0x00000020 => "手工送纸（Manual Feed）"@,
        0x00040000 => "无墨粉（No Toner）"@,
        0x00001000 => "不可用（Not Available）"@,
        0x00000080 => "脱机（Off Line）"@,
        0x00200000 => "内存溢出（Out of Memory）"@,
        0x00000800 => "输出口已满（Output Bin Full）"@,
        0x00080000 => "当前页无法打印（Page Punt）"@,
        0x00000008 => "塞纸（Paper Jam）"@,
        0x00000010 => "打印纸用完（Paper Out）"@,
        0x00000040 => "纸张问题（Page Problem）"@,
        0x00000001 => "暂停（Paused）"@,
        0x00000004 => "正在删除（Pending Deletion）"@,
        0x00000400 => "正在打印（Printing）"@,
        0x00004000 => "正在处理（Processing）"@,
        0x00020000 => "墨粉不足（Toner Low）"@,
        0x00100000 => "需要用户干预（User Intervention）"@,
        0x20000000 => "等待（Waiting）"@,
        0x00010000 => "正在准备（Warming Up）"@,
        _ => "未知状态（Unknown Status）"@,
    }
}

fn status_literal(status: u32) -> (res: &'static str)
    ensures
        res@ == status_text(status),
{
    match status {
        0 => "准备就绪（Ready）",
        0x00000200 => "忙(Busy）",
        0x00400000 => "门被打开（Printer Door Open）",
        0x00000002 => "错误(Printer Error）",
        0x00008000 => "正在初始化(Initializing）",
        0x00000100 => "正在输入或输出（I/O Active）",
        0x00000020 => "手工送纸（Manual Feed）",
        0x00040000 => "无墨粉（No Toner）",
        0x00001000 => "不可用（Not Available）",
        0x00000080 => "脱机（Off Line）",
        0x00200000 => "内存溢出（Out of Memory）",
        0x00000800 => "输出口已满（Output Bin Full）",
        0x00080000 => "当前页无法打印（Page Punt）",
        0x00000008 => "塞纸（Paper Jam）",
        0x00000010 => "打印纸用完（Paper Out）",
        0x00000040 => "纸张问题（Page Problem）",
        0x00000001 => "暂停（Paused）",
        0x00000004 => "正在删除（Pending Deletion）",
        0x00000400 => "正在打印（Printing）",
        0x00004000 => "正在处理（Processing）",
        0x00020000 => "墨粉不足（Toner Low）",
        0x00100000 => "需要用户干预（User Intervention）",
        0x20000000 => "等待（Waiting）",
        0x00010000 => "正在准备（Warming Up）",
        _ => "未知状态（Unknown Status）",
    }
}

/// The text that the status word of a printer reads as.
pub fn printer_status_text(status: u32) -> (res: String)
    ensures
        res@ == status_text(status),
{
    String::from_str(status_literal(status))
}

/// Law: each status word that is zero or a single known `PRINTER_STATUS_`
/// flag reads as its own text (ready, busy, door open, error, initializing,
/// I/O active, manual feed, no toner, not available, offline, out of memory,
/// output bin full, page punt, paper jam, paper out, paper problem, paused,
/// pending deletion, printing, processing, toner low, user intervention,
/// waiting, warming up), and every other word reads as an unknown status.
pub proof fn lemma_status_texts(status: u32)
    ensures
        status_text(0) == "准备就绪（Ready）"@,
        status_text(0x00000200) == "忙(Busy）"@,
        status_text(0x00400000) == "门被打开（Printer Door Open）"@,
        status_text(0x00000002) == "错误(Printer Error）"@,
        status_text(0x00008000) == "正在初始化(Initializing）"@,
        status_text(0x00000100) == "正在输入或输出（I/O Active）"@,
        status_text(0x00000020) == "手工送纸（Manual Feed）"@,
        status_text(0x00040000) == "无墨粉（No Toner）"@,
        status_text(0x00001000) == "不可用（Not Available）"@,
        status_text(0x00000080) == "脱机（Off Line）"@,
        status_text(0x00200000) == "内存溢出（Out of Memory）"@,
        status_text(0x00000800) == "输出口已满（Output Bin Full）"@,
        status_text(0x00080000) == "当前页无法打印（Page Punt）"@,
        status_text(0x00000008) == "塞纸（Paper Jam）"@,
        status_text(0x00000010) == "打印纸用完（Paper Out）"@,
        status_text(0x00000040) == "纸张问题（Page Problem）"@,
        status_text(0x00000001) == "暂停（Paused）"@,
        status_text(0x00000004) == "正在删除（Pending Deletion）"@,
        status_text(0x00000400) == "正在打印（Printing）"@,
        status_text(0x00004000) == "正在处理（Processing）"@,
        status_text(0x00020000) == "墨粉不足（Toner Low）"@,
        status_text(0x00100000) == "需要用户干预（User Intervention）"@,
        status_text(0x20000000) == "等待（Waiting）"@,
        status_text(0x00010000) == "正在准备（Warming Up）"@,
        (status != 0 && status != 0x00000200 && status != 0x00400000 && status != 0x00000002 && status != 0x00008000 && status != 0x00000100 && status != 0x00000020 && status != 0x00040000 && status != 0x00001000 && status != 0x00000080 && status != 0x00200000 && status != 0x00000800 && status != 0x00080000 && status != 0x00000008 && status != 0x00000010 && status != 0x00000040 && status != 0x00000001 && status != 0x00000004 && status != 0x00000400 && status != 0x00004000 && status != 0x00020000 && status != 0x00100000 && status != 0x20000000 && status != 0x00010000) ==> status_text(status) == "未知状态（Unknown Status）"@,
{
}

} // verus!
