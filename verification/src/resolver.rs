//! Executable-name resolution from a snapshot of the OS process table.

use sysinfo::{Pid, ProcessRefreshKind, ProcessesToUpdate, RefreshKind, System, UpdateKind};
use vstd::prelude::*;

verus! {

#[verifier::external_type_specification]
#[verifier::external_body]
pub struct ExSystem(System);

/// Resolves a process id to a human-readable executable name by inspecting a
/// snapshot of the operating system's process table.
///
/// The snapshot is refreshed for exactly the requested ids, never by a full
/// table scan, and is the resolver's only state. Resolution can fail for any
/// id — the process may have exited, the OS may deny access to its executable
/// path, or the path may have no file-name component — and such a failure is
/// a recoverable absence, not an error.
pub struct ProcessResolver {
    sys: System,
}

/// Relies on sysinfo::System::new_with_specifics: creates a process-table
/// snapshot that records executable paths and starts out empty.
#[verifier::external_body]
fn new_snapshot() -> (r: System) {
    System::new_with_specifics(
        RefreshKind::new().with_processes(ProcessRefreshKind::new().with_exe(UpdateKind::OnlyIfNotSet)),
    )
}

impl ProcessResolver {
    /// Creates a resolver over a fresh, empty process-table snapshot.
    pub fn new() -> (r: Self) {
        ProcessResolver { sys: new_snapshot() }
    }

    /// Relies on sysinfo::System::refresh_processes: updates the snapshot
    /// entries for exactly the given process ids, never the whole table.
    /// Touches nothing but the resolver's own snapshot.
    #[verifier::external_body]
    pub(crate) fn refresh(&mut self, pids: &Vec<i32>) {
        let targets: Vec<Pid> = pids.iter().map(|pid| Pid::from(*pid as usize)).collect();
        self.sys.refresh_processes(ProcessesToUpdate::Some(&targets));
    }

    /// Relies on sysinfo::System::process and sysinfo::Process::exe: reads the
    /// executable path the snapshot holds for the given id and hands back its
    /// file-name component; `None` when the snapshot has no such process, no
    /// path for it, or the path has no file name. What comes back depends on
    /// the snapshot's state, so nothing more is promised of it.
    #[verifier::external_body]
    pub(crate) fn exe_name(&self, pid: i32) -> (r: Option<String>) {
        let process = self.sys.process(Pid::from(pid as usize))?;
        let path = process.exe()?;
        let name = path.file_name()?;
        Some(name.to_str()?.to_string())
    }

    /// Resolves the given process id to an executable name: refreshes the
    /// snapshot for that id alone, then reads the name back. The outcome
    /// depends on the OS process table, so every caller must handle both a
    /// resolved name and a failure.
    pub fn resolve(&mut self, pid: i32) -> (r: Option<String>) {
        let one: Vec<i32> = vec![pid];
        self.refresh(&one);
        self.exe_name(pid)
    }

    /// Resolves each of the given process ids, refreshing the snapshot for
    /// all of them at once: one resolution outcome per id, in order.
    pub fn resolve_all(&mut self, pids: &Vec<i32>) -> (r: Vec<Option<String>>)
        ensures
            r@.len() == pids@.len(),
    {
        self.refresh(pids);
        let mut names: Vec<Option<String>> = Vec::new();
        let mut i: usize = 0;
        while i < pids.len()
            invariant
                names@.len() == i,
                i <= pids@.len(),
            decreases pids@.len() - i,
        {
            names.push(self.exe_name(pids[i]));
            i += 1;
        }
        names
    }
}

} // verus!
