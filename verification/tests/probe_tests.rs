use focus_probe::probe::{emit_for_change, poll_change};

#[test]
fn no_owner_pid_means_no_event() {
    let mut sys = sysinfo::System::new();
    let buf: Vec<u16> = vec![65, 0];
    let r = emit_for_change(&mut sys, String::from("2024-01-02 03:04:05"), 0, 1, &buf, 2);
    assert_eq!(r, None);
}

#[test]
fn exited_process_yields_dead_record() {
    let mut sys = sysinfo::System::new();
    // A pid far beyond any plausible live process id on this machine.
    let pid = 4_000_000_000u32;
    let buf: Vec<u16> = "B".encode_utf16().collect();
    let line = emit_for_change(&mut sys, String::from("2024-01-02 03:04:05"), pid, 1, &buf, 1)
        .expect("a nonzero pid must yield a record");
    assert_eq!(line, "2024-01-02 03:04:05 | 进程ID: 4000000000 不存在或已结束");
}

#[test]
fn live_process_yields_live_record() {
    let mut sys = sysinfo::System::new();
    let pid = sysinfo::get_current_pid().expect("current pid").as_u32();
    let buf: Vec<u16> = "Notepad\u{0}".encode_utf16().collect();
    let line = emit_for_change(&mut sys, String::from("2024-01-02 03:04:05"), pid, 7, &buf, 8)
        .expect("a nonzero pid must yield a record");
    let prefix = format!("2024-01-02 03:04:05 | 进程ID: {} | 窗口标题: Notepad | 执行路径: ", pid);
    assert!(line.starts_with(&prefix), "unexpected record: {}", line);
}

#[test]
fn poll_change_stamps_and_formats() {
    let mut sys = sysinfo::System::new();
    let pid = 4_000_000_000u32;
    let buf: Vec<u16> = Vec::new();
    let line = poll_change(&mut sys, pid, 0, &buf, 0).expect("a nonzero pid must yield a record");
    assert!(line.ends_with(" | 进程ID: 4000000000 不存在或已结束"), "unexpected record: {}", line);
    // the timestamp prefix has the fixed `YYYY-MM-DD HH:MM:SS` width
    let ts = &line[..19];
    assert_eq!(ts.len(), 19);
    assert_eq!(&ts[4..5], "-");
    assert_eq!(&ts[7..8], "-");
    assert_eq!(&ts[10..11], " ");
    assert_eq!(&ts[13..14], ":");
    assert_eq!(&ts[16..17], ":");
}

#[test]
fn poll_change_without_owner_is_silent() {
    let mut sys = sysinfo::System::new();
    let buf: Vec<u16> = Vec::new();
    assert_eq!(poll_change(&mut sys, 0, 0, &buf, 0), None);
}
