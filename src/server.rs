//! Lifecycle of the admin tool's server process: the checks before a spawn, the
//! PID file written after it, and the two independent ways of stopping it.

use vstd::prelude::*;
use vstd::string::StringExecFns;
use crate::config::{IpAddress, PhpMyAdminConfig};
use crate::error::LauncherError;
use crate::plan::{is_halting, service_task, Step, Task};
use crate::text::{same_text, decimal, decimal_of, lemma_unsigned_of_decimal, parse_unsigned, trimmed, unsigned_of};

verus! {

/// File in the working directory that holds the server's process id.
pub const PID_FILE: &'static str = "phpmyadmin.pid";

/// A process spawned by this manager: the caller's handle to it, and its id.
pub struct TrackedProcess<H> {
    pub handle: H,
    pub pid: u32,
}

/// Owns at most one admin-tool process at a time.
pub struct ProcessManager<H> {
    current: Option<TrackedProcess<H>>,
}

/// What the caller is to run: `program -S ip:port -t root`, output discarded.
#[derive(Clone, Debug)]
pub struct SpawnRequest {
    pub program: String,
    pub ip: IpAddress,
    pub port: u16,
    pub root: String,
}

pub enum StartPlan {
    /// A process is held already: nothing is spawned.
    AlreadyRunning,
    Spawn(SpawnRequest),
}

/// What the caller is to do to stop the tool; each part is best effort.
pub struct StopPlan<H> {
    /// The held process, to be killed and waited for.
    pub handle: Option<H>,
    /// The id read from the PID file, to be killed directly.
    pub kill_pid: Option<u32>,
    /// Whether the PID file is there and is to be deleted.
    pub remove_pid_file: bool,
}

#[derive(Clone, Copy, Debug, PartialEq, Eq, Structural)]
pub enum StartKind {
    AlreadyRunning,
    MissingInterpreter,
    MissingRoot,
    Spawn,
}

pub open spec fn php_program() -> Seq<char> {
    seq!['p', 'h', 'p']
}

/// The outcome of a start request: the checks in their order.
pub open spec fn start_kind(running: bool, php_installed: bool, root_exists: bool) -> StartKind {
    if running {
        StartKind::AlreadyRunning
    } else if !php_installed {
        StartKind::MissingInterpreter
    } else if !root_exists {
        StartKind::MissingRoot
    } else {
        StartKind::Spawn
    }
}

/// The process held after a spawn has been reported.
pub open spec fn after_spawn<H>(
    current: Option<TrackedProcess<H>>,
    spawned: TrackedProcess<H>,
    pid_file_written: bool,
) -> Option<TrackedProcess<H>> {
    if pid_file_written {
        Some(spawned)
    } else {
        current
    }
}

/// The process id that a PID file's text names.
pub open spec fn pid_in_file(text: Seq<char>) -> Option<u32> {
    unsigned_of(trimmed(text))
}

/// What a stop request does: the held handle, the id named by the PID file's
/// text when it could be read, and whether the file is deleted (whenever it
/// exists, readable or not).
pub open spec fn stop_effects<H>(
    current: Option<TrackedProcess<H>>,
    pid_file_exists: bool,
    pid_file: Option<Seq<char>>,
) -> (Option<H>, Option<u32>, bool) {
    (
        match current {
            Some(p) => Some(p.handle),
            None => None,
        },
        match pid_file {
            Some(t) => pid_in_file(t),
            None => None,
        },
        pid_file_exists,
    )
}

pub open spec fn text_of(f: Option<&str>) -> Option<Seq<char>> {
    match f {
        Some(t) => Some(t@),
        None => None,
    }
}

/// Text written to the PID file for a process id.
pub fn pid_file_text(pid: u32) -> (r: String)
    ensures
        r@ == decimal_of(pid as nat),
        pid_in_file(r@) == Some(pid),
{
    proof {
        lemma_unsigned_of_decimal(pid);
    }
    decimal(pid)
}

/// The process id that a PID file's text names, if it names one.
pub fn read_pid_file(text: &str) -> (r: Option<u32>)
    ensures
        r == pid_in_file(text@),
{
    parse_unsigned(text)
}

impl<H> ProcessManager<H> {
    pub closed spec fn current(&self) -> Option<TrackedProcess<H>> {
        self.current
    }

    pub open spec fn running(&self) -> bool {
        self.current() is Some
    }

    pub fn new() -> (r: Self)
        ensures
            r.current() is None,
    {
        ProcessManager { current: None }
    }

    pub fn is_running(&self) -> (r: bool)
        ensures
            r == self.running(),
    {
        self.current.is_some()
    }

    /// The process id of the held process.
    pub fn pid(&self) -> (r: Option<u32>)
        ensures
            r == (match self.current() {
                Some(p) => Some(p.pid),
                None => None,
            }),
    {
        match &self.current {
            Some(p) => Some(p.pid),
            None => None,
        }
    }

    /// Decides a start request. A held process makes it a no-op; otherwise the
    /// interpreter must be installed and the document root must exist, and the
    /// caller is told what to spawn.
    pub fn start_phpmyadmin(
        &self,
        config: &PhpMyAdminConfig,
        php_installed: bool,
        root_exists: bool,
    ) -> (r: Result<StartPlan, LauncherError>)
        ensures
            match start_kind(self.running(), php_installed, root_exists) {
                StartKind::AlreadyRunning => r matches Ok(StartPlan::AlreadyRunning),
                StartKind::MissingInterpreter => r matches Err(
                    LauncherError::AdminToolPrerequisiteMissing,
                ),
                StartKind::MissingRoot => r matches Err(LauncherError::AdminToolPathInvalid { path })
                    && path@ == config.path@,
                StartKind::Spawn => r matches Ok(StartPlan::Spawn(req)) && req.program@
                    == php_program() && req.ip == config.ip && req.port == config.port
                    && req.root@ == config.path@,
            },
    {
        if self.current.is_some() {
            return Ok(StartPlan::AlreadyRunning);
        }
        if !php_installed {
            return Err(LauncherError::AdminToolPrerequisiteMissing);
        }
        if !root_exists {
            return Err(LauncherError::AdminToolPathInvalid { path: config.path.clone() });
        }
        proof {
            reveal_strlit("php");
        }
        let program = String::from_str("php");
        assert(program@ =~= php_program());
        Ok(
            StartPlan::Spawn(
                SpawnRequest {
                    program,
                    ip: config.ip,
                    port: config.port,
                    root: config.path.clone(),
                },
            ),
        )
    }

    /// Takes ownership of a spawned process once its id is on disk. If the PID
    /// file could not be written the process is not held and the error says so.
    /// Called after a `Spawn` plan, when nothing is held.
    pub fn record_spawn(&mut self, spawned: TrackedProcess<H>, pid_file_written: bool) -> (r: Result<
        (),
        LauncherError,
    >)
        ensures
            final(self).current() == after_spawn(old(self).current(), spawned, pid_file_written),
            pid_file_written <==> r is Ok,
            !pid_file_written ==> (r matches Err(LauncherError::PidFilePersistError { pid })
                && pid == spawned.pid),
    {
        if pid_file_written {
            self.current = Some(spawned);
            Ok(())
        } else {
            Err(LauncherError::PidFilePersistError { pid: spawned.pid })
        }
    }

    /// Decides a stop request, given whether the PID file exists and its text
    /// if it could be read. The held process and the id in the file are stopped
    /// independently, and the file is deleted when it exists. Never fails;
    /// nothing is held afterwards.
    pub fn stop_phpmyadmin(&mut self, pid_file_exists: bool, pid_file: Option<&str>) -> (r:
        StopPlan<H>)
        ensures
            final(self).current() is None,
            (r.handle, r.kill_pid, r.remove_pid_file) == stop_effects(
                old(self).current(),
                pid_file_exists,
                text_of(pid_file),
            ),
    {
        let handle = match self.current.take() {
            Some(p) => Some(p.handle),
            None => None,
        };
        let kill_pid = match pid_file {
            Some(t) => read_pid_file(t),
            None => None,
        };
        StopPlan { handle, kill_pid, remove_pid_file: pid_file_exists }
    }
}

/// The service name under which the admin tool is started and stopped.
pub open spec fn admin_service() -> Seq<char> {
    "phpmyadmin"@
}

pub open spec fn routed(t: Task, start: bool, service: Seq<char>) -> bool {
    if service == admin_service() {
        t == (if start { Task::StartAdminTool } else { Task::StopAdminTool })
    } else {
        service_task(t, start, service)
    }
}

/// Starting `service`: the admin tool by its name, else a system service.
pub fn start(service: &str) -> (r: Task)
    ensures
        routed(r, true, service@),
{
    if same_text(service, "phpmyadmin") {
        Task::StartAdminTool
    } else {
        Task::StartService(service.to_owned())
    }
}

/// Stopping `service`: the admin tool by its name, else a system service.
pub fn stop(service: &str) -> (r: Task)
    ensures
        routed(r, false, service@),
{
    if same_text(service, "phpmyadmin") {
        Task::StopAdminTool
    } else {
        Task::StopService(service.to_owned())
    }
}

/// Stop, then start, either of the admin tool or of a system service; the
/// first failure ends the restart.
pub fn restart(service: &str) -> (r: Vec<Step>)
    ensures
        r@.len() == 2,
        routed(r@[0].task, false, service@),
        routed(r@[1].task, true, service@),
        is_halting(r@),
{
    let mut r: Vec<Step> = Vec::new();
    r.push(Step { task: stop(service), halt_on_failure: true });
    r.push(Step { task: start(service), halt_on_failure: true });
    r
}

/// A stop right after a successful start kills the process that was spawned,
/// both through its handle and through the id in the PID file, deletes the
/// file, and leaves nothing held.
pub proof fn lemma_stop_after_start<H>(current: Option<TrackedProcess<H>>, spawned: TrackedProcess<H>)
    ensures
        stop_effects(
            after_spawn(current, spawned, true),
            true,
            Some(decimal_of(spawned.pid as nat)),
        )
            == (Some(spawned.handle), Some(spawned.pid), true),
{
    lemma_unsigned_of_decimal(spawned.pid);
}

/// Once a spawn is recorded, a second start spawns nothing and reports that the
/// tool is running, whatever the checks would say.
pub proof fn lemma_start_is_idempotent<H>(
    current: Option<TrackedProcess<H>>,
    spawned: TrackedProcess<H>,
    php_installed: bool,
    root_exists: bool,
)
    ensures
        start_kind(after_spawn(current, spawned, true) is Some, php_installed, root_exists)
            == StartKind::AlreadyRunning,
{
}

/// With nothing held, a PID file left by an earlier run is acted on: its
/// process is killed and the file is deleted.
pub proof fn lemma_stop_recovers_stale_pid_file<H>(pid: u32)
    ensures
        stop_effects::<H>(None, true, Some(decimal_of(pid as nat))) == (None::<H>, Some(pid), true),
{
    lemma_unsigned_of_decimal(pid);
}

/// With nothing held and no PID file, a stop does nothing and succeeds.
pub proof fn lemma_stop_without_anything_is_noop<H>()
    ensures
        stop_effects::<H>(None, false, None) == (None::<H>, None::<u32>, false),
{
}

} // verus!
