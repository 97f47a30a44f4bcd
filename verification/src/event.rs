use vstd::prelude::*;
use vstd::string::StringExecFns;
use crate::snapshot::ProcessRecord;

verus! {

/// One activity record, created once per detected focus change, immutable
/// after creation, and consumed immediately by the event sink.
pub enum ActivityEvent {
    /// The owning process was found in the snapshot.
    Live { timestamp: String, pid: u32, title: String, exe_path: String },
    /// The owning process was already gone from the snapshot at lookup
    /// time: the record carries only the timestamp and the pid.
    Dead { timestamp: String, pid: u32 },
}

/// The view of an optional string.
pub open spec fn opt_text(t: Option<String>) -> Option<Seq<char>> {
    match t {
        Some(s) => Some(s@),
        None => None,
    }
}

/// The title field of a live record: the resolved title, or the documented
/// placeholder when resolution failed.
pub open spec fn title_field(t: Option<Seq<char>>) -> Seq<char> {
    match t {
        Some(s) => s,
        None => "未知窗口"@,
    }
}

/// The executable-path field of a live record: the looked-up path, or the
/// documented placeholder when it was unavailable.
pub open spec fn exe_field(p: Option<Seq<char>>) -> Seq<char> {
    match p {
        Some(s) => s,
        None => "未知路径"@,
    }
}

/// The resolved title, or the placeholder.
pub fn title_or_placeholder(t: Option<String>) -> (r: String)
    ensures
        r@ == title_field(opt_text(t)),
{
    match t {
        Some(s) => s,
        None => String::from_str("未知窗口"),
    }
}

/// The looked-up executable path, or the placeholder.
pub fn exe_or_placeholder(p: Option<String>) -> (r: String)
    ensures
        r@ == exe_field(opt_text(p)),
{
    match p {
        Some(s) => s,
        None => String::from_str("未知路径"),
    }
}

/// The character of one decimal digit.
pub open spec fn digit_char(d: nat) -> char {
    ((d + 48) as u8) as char
}

/// The decimal numeral of `n`, most significant digit first, no leading
/// zeros (a single `0` for zero itself).
pub open spec fn dec_digits(n: nat) -> Seq<char>
    decreases n,
{
    if n < 10 {
        seq![digit_char(n)]
    } else {
        dec_digits(n / 10).push(digit_char(n % 10))
    }
}

/// One decimal digit as text.
fn digit_str(d: u8) -> (r: &'static str)
    requires
        d < 10,
    ensures
        r@ == seq![digit_char(d as nat)],
{
    let r: &'static str = match d {
        0u8 => "0",
        1u8 => "1",
        2u8 => "2",
        3u8 => "3",
        4u8 => "4",
        5u8 => "5",
        6u8 => "6",
        7u8 => "7",
        8u8 => "8",
        _ => "9",
    };
    proof {
        reveal_strlit("0");
        reveal_strlit("1");
        reveal_strlit("2");
        reveal_strlit("3");
        reveal_strlit("4");
        reveal_strlit("5");
        reveal_strlit("6");
        reveal_strlit("7");
        reveal_strlit("8");
        reveal_strlit("9");
        assert(r@ =~= seq![digit_char(d as nat)]);
    }
    r
}

/// The decimal numeral of a process id.
pub fn u32_to_decimal(n: u32) -> (r: String)
    ensures
        r@ == dec_digits(n as nat),
    decreases n,
{
    let d: u8 = (n % 10) as u8;
    if n < 10 {
        String::from_str(digit_str(d))
    } else {
        let prefix = u32_to_decimal(n / 10);
        let r = prefix.concat(digit_str(d));
        proof {
            assert(r@ =~= dec_digits(n as nat));
        }
        r
    }
}

/// The one-line record for a live process:
/// `<timestamp> | 进程ID: <pid> | 窗口标题: <title> | 执行路径: <path>`.
pub open spec fn live_line(ts: Seq<char>, pid: u32, title: Seq<char>, exe: Seq<char>) -> Seq<
    char,
> {
    ts + " | 进程ID: "@ + dec_digits(pid as nat) + " | 窗口标题: "@ + title + " | 执行路径: "@
        + exe
}

/// The one-line record for a process that was not found:
/// `<timestamp> | 进程ID: <pid> 不存在或已结束`.
pub open spec fn dead_line(ts: Seq<char>, pid: u32) -> Seq<char> {
    ts + " | 进程ID: "@ + dec_digits(pid as nat) + " 不存在或已结束"@
}

/// The formatted line of a record.
pub open spec fn event_line(e: ActivityEvent) -> Seq<char> {
    match e {
        ActivityEvent::Live { timestamp, pid, title, exe_path } => live_line(
            timestamp@,
            pid,
            title@,
            exe_path@,
        ),
        ActivityEvent::Dead { timestamp, pid } => dead_line(timestamp@, pid),
    }
}

/// Assemble the record for one focus change from the timestamp, the owning
/// pid, the snapshot's answer and the resolved title. A missing snapshot
/// record degrades to the dead-process variant, carrying only timestamp
/// and pid; missing title or path degrade to their placeholders.
pub fn build_event(
    timestamp: String,
    pid: u32,
    record: Option<ProcessRecord>,
    title: Option<String>,
) -> (e: ActivityEvent)
    ensures
        (record matches Some(rec) ==> e is Live && e->Live_timestamp@ == timestamp@
            && e->Live_pid == pid && e->Live_title@ == title_field(opt_text(title))
            && e->Live_exe_path@ == exe_field(opt_text(rec.exe_path))),
        record is None ==> e is Dead && e->Dead_timestamp@ == timestamp@ && e->Dead_pid == pid,
{
    match record {
        Some(rec) => {
            let title_text = title_or_placeholder(title);
            let exe_text = exe_or_placeholder(rec.exe_path);
            ActivityEvent::Live { timestamp, pid, title: title_text, exe_path: exe_text }
        },
        None => ActivityEvent::Dead { timestamp, pid },
    }
}

/// Render a record as the single line handed to the event sink.
pub fn format_event(e: &ActivityEvent) -> (r: String)
    ensures
        r@ == event_line(*e),
{
    match e {
        ActivityEvent::Live { timestamp, pid, title, exe_path } => {
            let mut line = timestamp.clone();
            line.append(" | 进程ID: ");
            let pid_text = u32_to_decimal(*pid);
            line.append(pid_text.as_str());
            line.append(" | 窗口标题: ");
            line.append(title.as_str());
            line.append(" | 执行路径: ");
            line.append(exe_path.as_str());
            proof {
                assert(line@ =~= event_line(*e));
            }
            line
        },
        ActivityEvent::Dead { timestamp, pid } => {
            let mut line = timestamp.clone();
            line.append(" | 进程ID: ");
            let pid_text = u32_to_decimal(*pid);
            line.append(pid_text.as_str());
            line.append(" 不存在或已结束");
            proof {
                assert(line@ =~= event_line(*e));
            }
            line
        },
    }
}

} // verus!
