use vstd::prelude::*;
use crate::event::{
    build_event, dead_line, exe_field, format_event, live_line, opt_text, title_field,
};
use crate::resolver::{classify_owner_pid, resolve_title_from_raw, title_of};
use crate::snapshot::{refresh_and_lookup, ProcessRecord};

verus! {

/// The line that one focus change yields, as a function of the timestamp,
/// the platform's raw answers, and whatever the process lookup returned:
/// the live-process schema when a record was found, the dead-process
/// schema otherwise.
pub open spec fn change_line(
    ts: Seq<char>,
    raw_pid: u32,
    reported_len: u32,
    copied: Seq<u16>,
    record: Option<ProcessRecord>,
) -> Seq<char> {
    match record {
        Some(rec) => live_line(
            ts,
            raw_pid,
            title_field(title_of(reported_len, copied)),
            exe_field(opt_text(rec.exe_path)),
        ),
        None => dead_line(ts, raw_pid),
    }
}

/// Resolve one focus change into its formatted record, given a timestamp
/// and the platform's raw answers: the owning pid as reported (zero for
/// none), the reported title length, and the title buffer with the count
/// of code units actually copied. No record is produced exactly when no
/// owning process was reported — there is then no pid to key an event on.
/// The snapshot's answer depends on live OS state, so the contract holds
/// for every answer the lookup can give.
pub fn emit_for_change(
    sys: &mut sysinfo::System,
    timestamp: String,
    raw_pid: u32,
    reported_len: u32,
    title_buf: &Vec<u16>,
    title_copied: usize,
) -> (r: Option<String>)
    requires
        title_copied <= title_buf@.len(),
    ensures
        r is Some <==> raw_pid != 0,
        (r matches Some(line) ==> exists|record: Option<ProcessRecord>|
            line@ == #[trigger] change_line(
                timestamp@,
                raw_pid,
                reported_len,
                title_buf@.take(title_copied as int),
                record,
            )),
{
    let pid_opt = classify_owner_pid(raw_pid);
    match pid_opt {
        None => None,
        Some(pid) => {
            let title = resolve_title_from_raw(reported_len, title_buf, title_copied);
            let record = refresh_and_lookup(sys, pid);
            let ghost chosen_record = record;
            let ghost ts_view = timestamp@;
            let e = build_event(timestamp, pid, record, title);
            let line = format_event(&e);
            proof {
                assert(line@ == change_line(
                    ts_view,
                    raw_pid,
                    reported_len,
                    title_buf@.take(title_copied as int),
                    chosen_record,
                ));
            }
            Some(line)
        },
    }
}

/// Relies on `chrono::Local::now` and its `format`: the current local time
/// rendered as `YYYY-MM-DD HH:MM:SS`. The value depends on the clock and
/// the machine's time zone, so nothing is promised of it.
#[verifier::external_body]
fn now_timestamp() -> String {
    chrono::Local::now().format("%Y-%m-%d %H:%M:%S").to_string()
}

/// One focus change, end to end: stamp the moment, then resolve, look up
/// and format as `emit_for_change` does. The timestamp comes from the
/// clock, so the contract holds for every value it can take.
pub fn poll_change(
    sys: &mut sysinfo::System,
    raw_pid: u32,
    reported_len: u32,
    title_buf: &Vec<u16>,
    title_copied: usize,
) -> (r: Option<String>)
    requires
        title_copied <= title_buf@.len(),
    ensures
        r is Some <==> raw_pid != 0,
        (r matches Some(line) ==> exists|ts: Seq<char>, record: Option<ProcessRecord>|
            line@ == #[trigger] change_line(
                ts,
                raw_pid,
                reported_len,
                title_buf@.take(title_copied as int),
                record,
            )),
{
    let ts = now_timestamp();
    let ghost ts_view = ts@;
    let r = emit_for_change(sys, ts, raw_pid, reported_len, title_buf, title_copied);
    proof {
        if r is Some {
            let line = r->Some_0;
            let record = choose|record: Option<ProcessRecord>|
                line@ == #[trigger] change_line(
                    ts_view,
                    raw_pid,
                    reported_len,
                    title_buf@.take(title_copied as int),
                    record,
                );
            assert(line@ == change_line(
                ts_view,
                raw_pid,
                reported_len,
                title_buf@.take(title_copied as int),
                record,
            ));
        }
    }
    r
}

} // verus!
