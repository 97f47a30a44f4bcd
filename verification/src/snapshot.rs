use vstd::prelude::*;

verus! {

/// What the process lookup knows of one process: its executable path, when
/// the platform could report one (it may be withheld, e.g. for permission
/// reasons).
pub struct ProcessRecord {
    pub exe_path: Option<String>,
}

impl ProcessRecord {
    /// The executable path, if available.
    pub fn executable_path(&self) -> (r: &Option<String>)
        ensures
            r == &self.exe_path,
    {
        &self.exe_path
    }
}

/// The refreshable snapshot of OS process state backing the lookup.
#[verifier::external_type_specification]
#[verifier::external_body]
pub struct ExSystem(sysinfo::System);

/// Relies on `sysinfo::System::refresh_processes`: updates the snapshot's
/// knowledge of exactly the one given process, and drops the id from the
/// snapshot if that process has exited.
#[verifier::external_body]
pub(crate) fn refresh_one(sys: &mut sysinfo::System, pid: u32) {
    sys.refresh_processes(
        sysinfo::ProcessesToUpdate::Some(&[sysinfo::Pid::from(pid as usize)]),
        true,
    );
}

/// Relies on `sysinfo::System::process` and `sysinfo::Process::exe`: the
/// snapshot's record of the one process, if it holds one; the executable
/// path only when the platform reported it. What comes back depends on the
/// machine's state, so nothing more is promised.
#[verifier::external_body]
pub(crate) fn lookup_one(sys: &sysinfo::System, pid: u32) -> (r: Option<ProcessRecord>) {
    sys.process(sysinfo::Pid::from(pid as usize)).map(
        |p|
            ProcessRecord {
                exe_path: p.exe().map(|path| path.to_string_lossy().to_string()),
            },
    )
}

/// Direct the snapshot to update its knowledge of exactly `pid` — dropping
/// it if the process has exited — then look that process up. The snapshot
/// is never globally rescanned, keeping the polling hot path cheap. The
/// result reflects live OS state, so no outcome is promised: callers state
/// what they do with every possible answer.
pub fn refresh_and_lookup(sys: &mut sysinfo::System, pid: u32) -> (r: Option<ProcessRecord>) {
    refresh_one(sys, pid);
    lookup_one(sys, pid)
}

} // verus!
