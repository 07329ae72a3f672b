//! Service lifecycle supervision: the three-level status check, the
//! reconciliation of PID-file state against observed reality, and the
//! decision logic of start and stop orchestration. These functions decide;
//! the caller performs the process and network actions they call for and
//! hands back what it observed.
//!
//! Status checks are read-only and may run concurrently; the PID file is
//! the serialization point, and a half-written file reads as "no PID".
//! The supervisor provides no mutual exclusion across concurrent starts
//! of one service: callers are expected not to race their own start
//! requests.

use vstd::prelude::*;

verus! {

/// Transient status of one managed service, computed fresh on each check.
#[derive(Clone, Debug)]
pub struct ServiceStatus {
    pub pid_exists: bool,
    pub process_responds: bool,
    pub service_responds: bool,
    pub pid: Option<i32>,
    pub error: Option<String>,
}

/// Internal consistency of a status: a responding service implies a live
/// process, a live process implies a recorded PID.
pub open spec fn status_wf(s: ServiceStatus) -> bool {
    &&& s.service_responds ==> s.process_responds
    &&& s.process_responds ==> s.pid_exists
    &&& s.pid_exists ==> s.pid is Some
}

/// Status when no PID file is present: everything false, and no process
/// or network probe is attempted.
pub fn status_no_pid_file() -> (s: ServiceStatus)
    ensures
        !s.pid_exists,
        !s.process_responds,
        !s.service_responds,
        s.pid is None,
        s.error is None,
        status_wf(s),
{
    ServiceStatus {
        pid_exists: false,
        process_responds: false,
        service_responds: false,
        pid: None,
        error: None,
    }
}

/// Status when the PID file names `pid` but no such process exists: the
/// stale PID is reported, and no network probe is attempted.
pub fn status_process_gone(pid: i32) -> (s: ServiceStatus)
    ensures
        !s.pid_exists,
        !s.process_responds,
        !s.service_responds,
        s.pid == Some(pid),
        s.error is None,
        status_wf(s),
{
    ServiceStatus {
        pid_exists: false,
        process_responds: false,
        service_responds: false,
        pid: Some(pid),
        error: None,
    }
}

/// Status when the process behind `pid` exists and the health endpoint
/// was probed: `Ok` carries whether a 2xx came back, `Err` the failure to
/// evaluate the probe at all.
pub fn status_with_probe(pid: i32, probe: Result<bool, String>) -> (s: ServiceStatus)
    ensures
        s.pid_exists,
        s.pid == Some(pid),
        probe matches Ok(responds) ==> s.service_responds == responds
            && s.process_responds == responds && s.error is None,
        probe matches Err(e) ==> !s.service_responds && !s.process_responds && s.error == Some(e),
        status_wf(s),
{
    match probe {
        Ok(responds) => ServiceStatus {
            pid_exists: true,
            process_responds: responds,
            service_responds: responds,
            pid: Some(pid),
            error: None,
        },
        Err(e) => ServiceStatus {
            pid_exists: true,
            process_responds: false,
            service_responds: false,
            pid: Some(pid),
            error: Some(e),
        },
    }
}

/// What the supervisor observed while checking one service, gathered
/// level by level: the PID file, process existence, and only for a live
/// process the health endpoint.
pub enum ServiceObservation {
    NoPidFile,
    ProcessGone { pid: i32 },
    Probed { pid: i32, probe: Result<bool, String> },
}

/// Assemble the status a set of observations yields. The observation kind
/// encodes the short-circuits: a missing PID file ends the check before
/// any probe, a dead process before the network probe.
pub fn check_service_status(obs: ServiceObservation) -> (s: ServiceStatus)
    ensures
        status_wf(s),
        obs is NoPidFile ==> !s.pid_exists && !s.process_responds && !s.service_responds
            && s.pid is None && s.error is None,
        obs matches ServiceObservation::ProcessGone { pid } ==> !s.pid_exists
            && !s.process_responds && !s.service_responds && s.pid == Some(pid)
            && s.error is None,
        obs matches ServiceObservation::Probed { pid, probe: Ok(responds) } ==> s.pid_exists
            && s.pid == Some(pid) && s.service_responds == responds && s.process_responds
            == responds && s.error is None,
        obs matches ServiceObservation::Probed { pid, probe: Err(e) } ==> s.pid_exists && s.pid
            == Some(pid) && !s.service_responds && !s.process_responds && s.error == Some(e),
{
    match obs {
        ServiceObservation::NoPidFile => status_no_pid_file(),
        ServiceObservation::ProcessGone { pid } => status_process_gone(pid),
        ServiceObservation::Probed { pid, probe } => status_with_probe(pid, probe),
    }
}

/// Where a service stands, as the three-level check sees it: no PID
/// file, a stale PID file, a live but silent process, or a responding
/// service.
#[derive(PartialEq, Eq, Structural, Clone, Copy, Debug)]
pub enum ServiceState {
    NoPidFile,
    ProcessGone,
    Unresponsive,
    Responding,
}

/// Classify a status into the service's state: starting moves any state
/// to `Responding` or fails; stopping moves any state to `NoPidFile` or
/// `ProcessGone`.
pub fn service_state(s: &ServiceStatus) -> (r: ServiceState)
    requires
        status_wf(*s),
    ensures
        s.pid is None ==> r == ServiceState::NoPidFile,
        s.pid is Some && !s.pid_exists ==> r == ServiceState::ProcessGone,
        s.pid_exists && !s.service_responds ==> r == ServiceState::Unresponsive,
        s.pid_exists && s.service_responds ==> r == ServiceState::Responding,
{
    if s.pid.is_none() {
        ServiceState::NoPidFile
    } else if !s.pid_exists {
        ServiceState::ProcessGone
    } else if !s.service_responds {
        ServiceState::Unresponsive
    } else {
        ServiceState::Responding
    }
}

/// The corrective action reconciliation decides on, given a fresh status
/// and whether a PID file is present.
#[derive(PartialEq, Eq, Structural, Clone, Copy, Debug)]
pub enum ReconcileAction {
    /// The PID file names a process that is gone: delete the file.
    RemovePidFile,
    /// The process lives but does not answer: warn only, never restart.
    WarnUnresponsive,
    /// The service answers but the PID file is missing: persist this PID.
    RecoverPidFile(i32),
    NoAction,
}

/// The reconciliation rule: stale PID files are removed, zombies are only
/// warned about, a responding service with lost bookkeeping has its PID
/// written back.
pub open spec fn spec_reconcile_action(s: ServiceStatus, pid_file_present: bool) -> ReconcileAction {
    if pid_file_present && !s.pid_exists {
        ReconcileAction::RemovePidFile
    } else if s.pid_exists && !s.service_responds {
        ReconcileAction::WarnUnresponsive
    } else if s.service_responds && !pid_file_present && s.pid is Some {
        ReconcileAction::RecoverPidFile(s.pid->0)
    } else {
        ReconcileAction::NoAction
    }
}

/// Decide the corrective action for one service.
pub fn reconcile_action(status: &ServiceStatus, pid_file_present: bool) -> (a: ReconcileAction)
    ensures
        a == spec_reconcile_action(*status, pid_file_present),
{
    if pid_file_present && !status.pid_exists {
        ReconcileAction::RemovePidFile
    } else if status.pid_exists && !status.service_responds {
        ReconcileAction::WarnUnresponsive
    } else if status.service_responds && !pid_file_present {
        match status.pid {
            Some(pid) => ReconcileAction::RecoverPidFile(pid),
            None => ReconcileAction::NoAction,
        }
    } else {
        ReconcileAction::NoAction
    }
}

/// Reconciliation removes the PID file exactly when one is present while
/// the process it names is gone.
pub proof fn lemma_reconcile_removes_iff(s: ServiceStatus, pid_file_present: bool)
    ensures
        spec_reconcile_action(s, pid_file_present) == ReconcileAction::RemovePidFile
            <==> pid_file_present && !s.pid_exists,
{
}

/// Reconciliation writes a PID file exactly when the service responds
/// while no PID file is present.
pub proof fn lemma_reconcile_recovers_iff(s: ServiceStatus, pid_file_present: bool)
    requires
        status_wf(s),
    ensures
        spec_reconcile_action(s, pid_file_present) is RecoverPidFile <==> s.service_responds
            && !pid_file_present,
{
}

/// The PID-file presence after an action is carried out: removal clears
/// it, recovery writes it, warnings and inaction leave it alone.
pub open spec fn spec_pid_file_after(pid_file_present: bool, a: ReconcileAction) -> bool {
    match a {
        ReconcileAction::RemovePidFile => false,
        ReconcileAction::RecoverPidFile(_) => true,
        _ => pid_file_present,
    }
}

/// Reconciliation settles in one pass: with the PID-file state its own
/// action produced, a second look at the same status never asks for
/// another file change — at most the standing warning remains.
pub proof fn lemma_reconcile_settles(s: ServiceStatus, pid_file_present: bool)
    requires
        status_wf(s),
    ensures
        ({
            let again = spec_reconcile_action(
                s,
                spec_pid_file_after(pid_file_present, spec_reconcile_action(s, pid_file_present)),
            );
            again == ReconcileAction::NoAction || again == ReconcileAction::WarnUnresponsive
        }),
{
}

/// Outcome of a start request, as reported to the caller.
#[derive(Clone, Debug)]
pub struct StartResult {
    pub success: bool,
    pub pid: Option<i32>,
    pub error: Option<String>,
    pub requires_settings: bool,
}

/// The step a start request takes after reconciliation, before anything
/// is spawned.
#[derive(Clone, Debug)]
pub enum StartStep {
    /// The executable was not found: report that configuration is needed,
    /// with the search error; nothing is spawned.
    ReportMissingExecutable(String),
    /// The service already responds: report success with the PID already
    /// recorded; nothing is spawned.
    ReportAlreadyRunning(Option<i32>),
    /// Spawn the executable at this path.
    SpawnProcess(String),
}

/// Start begins by locating the executable and checking current status:
/// a missing executable asks for settings, a responding service is left
/// alone, and only otherwise is a spawn attempted.
pub open spec fn spec_start_preflight(exe: Result<String, String>, s: ServiceStatus) -> StartStep {
    match exe {
        Err(e) => StartStep::ReportMissingExecutable(e),
        Ok(path) => if s.service_responds {
            StartStep::ReportAlreadyRunning(s.pid)
        } else {
            StartStep::SpawnProcess(path)
        },
    }
}

/// Decide how a start request proceeds, given the executable search
/// outcome and the post-reconciliation status.
pub fn start_preflight(exe: Result<String, String>, status: &ServiceStatus) -> (d: StartStep)
    ensures
        d == spec_start_preflight(exe, *status),
{
    match exe {
        Err(e) => StartStep::ReportMissingExecutable(e),
        Ok(path) => {
            if status.service_responds {
                StartStep::ReportAlreadyRunning(status.pid)
            } else {
                StartStep::SpawnProcess(path)
            }
        },
    }
}

/// Starting is idempotent: a second start that observes a responding
/// service reports success with the already-recorded PID and never
/// reaches the spawn step, so at most one process is ever spawned.
pub proof fn lemma_start_idempotent(exe_path: String, s: ServiceStatus)
    requires
        s.service_responds,
    ensures
        spec_start_preflight(Ok(exe_path), s) == StartStep::ReportAlreadyRunning(s.pid),
        !(spec_start_preflight(Ok(exe_path), s) is SpawnProcess),
{
}

/// The start result for a service that already responds: success, the
/// existing PID, no error, no settings prompt.
pub fn start_result_already_running(pid: Option<i32>) -> (r: StartResult)
    ensures
        r.success,
        r.pid == pid,
        r.error is None,
        !r.requires_settings,
{
    StartResult { success: true, pid, error: None, requires_settings: false }
}

/// The start result when the executable could not be located: failure
/// that asks the caller to prompt for configuration.
pub fn start_result_missing_executable(error: String) -> (r: StartResult)
    ensures
        !r.success,
        r.pid is None,
        r.error == Some(error),
        r.requires_settings,
{
    StartResult { success: false, pid: None, error: Some(error), requires_settings: true }
}

/// The start result when spawning itself failed: failure, no PID, the
/// spawn error, no settings prompt.
pub fn start_result_spawn_failed(error: String) -> (r: StartResult)
    ensures
        !r.success,
        r.pid is None,
        r.error == Some(error),
        !r.requires_settings,
{
    StartResult { success: false, pid: None, error: Some(error), requires_settings: false }
}

/// The start result after health polling: success carries the new PID;
/// failure still carries it, since the process may be alive yet
/// unresponsive, and the caller decides what to do with it.
pub fn start_result_after_poll(pid: i32, healthy: bool, error: String) -> (r: StartResult)
    ensures
        r.success == healthy,
        r.pid == Some(pid),
        healthy ==> r.error is None,
        !healthy ==> r.error == Some(error),
        !r.requires_settings,
{
    if healthy {
        StartResult { success: true, pid: Some(pid), error: None, requires_settings: false }
    } else {
        StartResult {
            success: false,
            pid: Some(pid),
            error: Some(error),
            requires_settings: false,
        }
    }
}

/// How many times the health endpoint is polled after a spawn before the
/// start is declared failed.
pub const HEALTH_POLL_ATTEMPTS: usize = 10;

/// Milliseconds between two health polls.
pub const HEALTH_POLL_INTERVAL_MS: u64 = 500;

/// What the polling loop does after one probe.
#[derive(PartialEq, Eq, Structural, Clone, Copy, Debug)]
pub enum PollStep {
    PollSucceeded,
    RetryAfterDelay(u64),
    PollFailed,
}

/// One step of the bounded health poll: success ends it, a failed probe
/// before the last attempt waits the fixed interval, and the last failed
/// attempt declares failure.
pub fn health_poll_step(attempt: usize, responded: bool) -> (p: PollStep)
    requires
        1 <= attempt <= HEALTH_POLL_ATTEMPTS,
    ensures
        responded ==> p == PollStep::PollSucceeded,
        !responded && attempt < HEALTH_POLL_ATTEMPTS ==> p == PollStep::RetryAfterDelay(
            HEALTH_POLL_INTERVAL_MS,
        ),
        !responded && attempt == HEALTH_POLL_ATTEMPTS ==> p == PollStep::PollFailed,
{
    if responded {
        PollStep::PollSucceeded
    } else if attempt < HEALTH_POLL_ATTEMPTS {
        PollStep::RetryAfterDelay(HEALTH_POLL_INTERVAL_MS)
    } else {
        PollStep::PollFailed
    }
}

/// Index of the first `true` in `probes`, or its length when none is.
pub open spec fn spec_first_true(probes: Seq<bool>) -> int
    decreases probes.len(),
{
    if probes.len() == 0 {
        0
    } else if probes[0] {
        0
    } else {
        1 + spec_first_true(probes.drop_first())
    }
}

/// Number of attempts the polling loop makes when the probes come back
/// as `probes`: it stops at the first success, and after
/// `HEALTH_POLL_ATTEMPTS` failures.
pub open spec fn spec_poll_attempts(probes: Seq<bool>) -> int {
    if spec_first_true(probes) < probes.len() {
        spec_first_true(probes) + 1
    } else {
        probes.len() as int
    }
}

/// The polling loop succeeds exactly when some probe comes back healthy.
pub open spec fn spec_poll_success(probes: Seq<bool>) -> bool {
    spec_first_true(probes) < probes.len()
}

/// Position of the first `true`: it is in bounds exactly when some entry
/// is `true`, it points at a `true`, and everything before it is `false`.
pub proof fn lemma_first_true_props(probes: Seq<bool>)
    ensures
        0 <= spec_first_true(probes) <= probes.len(),
        spec_first_true(probes) < probes.len() ==> probes[spec_first_true(probes)],
        forall|j: int| 0 <= j < spec_first_true(probes) ==> !probes[j],
    decreases probes.len(),
{
    if probes.len() > 0 && !probes[0] {
        lemma_first_true_props(probes.drop_first());
        assert forall|j: int| 0 <= j < spec_first_true(probes) implies !probes[j] by {
            if j >= 1 {
                assert(!probes.drop_first()[j - 1]);
            }
        }
    }
}

proof fn lemma_first_true_at(probes: Seq<bool>, i: int)
    requires
        0 <= i < probes.len(),
        probes[i],
        forall|j: int| 0 <= j < i ==> !probes[j],
    ensures
        spec_first_true(probes) == i,
    decreases i,
{
    if i > 0 {
        lemma_first_true_at(probes.drop_first(), i - 1);
    }
}

proof fn lemma_first_true_none(probes: Seq<bool>)
    requires
        forall|j: int| 0 <= j < probes.len() ==> !probes[j],
    ensures
        spec_first_true(probes) == probes.len(),
    decreases probes.len(),
{
    if probes.len() > 0 {
        lemma_first_true_none(probes.drop_first());
    }
}

/// Run the bounded health poll against a fixed sequence of probe
/// outcomes, one entry per attempt: returns how many attempts were made
/// and whether one succeeded.
pub fn run_health_poll(probes: &Vec<bool>) -> (r: (usize, bool))
    requires
        probes@.len() == HEALTH_POLL_ATTEMPTS,
    ensures
        r.1 == spec_poll_success(probes@),
        r.0 == spec_poll_attempts(probes@),
{
    let mut attempt: usize = 1;
    loop
        invariant
            1 <= attempt <= HEALTH_POLL_ATTEMPTS,
            probes@.len() == HEALTH_POLL_ATTEMPTS,
            forall|j: int| 0 <= j < attempt - 1 ==> !probes@[j],
        ensures
            1 <= attempt <= HEALTH_POLL_ATTEMPTS,
            probes@[attempt - 1],
            forall|j: int| 0 <= j < attempt - 1 ==> !probes@[j],
        decreases HEALTH_POLL_ATTEMPTS - attempt,
    {
        let responded = probes[attempt - 1];
        match health_poll_step(attempt, responded) {
            PollStep::PollSucceeded => {
                break ;
            },
            PollStep::RetryAfterDelay(_wait) => {
                attempt = attempt + 1;
            },
            PollStep::PollFailed => {
                proof {
                    lemma_first_true_none(probes@);
                }
                return (HEALTH_POLL_ATTEMPTS, false);
            },
        }
    }
    proof {
        lemma_first_true_at(probes@, attempt - 1);
    }
    (attempt, true)
}

/// When the spawned process never becomes healthy, the poll makes exactly
/// `HEALTH_POLL_ATTEMPTS` attempts, each after the fixed interval, and
/// declares failure.
pub proof fn lemma_poll_exhausts_attempts(probes: Seq<bool>)
    requires
        probes.len() == HEALTH_POLL_ATTEMPTS,
        forall|j: int| 0 <= j < probes.len() ==> !probes[j],
    ensures
        spec_poll_attempts(probes) == HEALTH_POLL_ATTEMPTS,
        !spec_poll_success(probes),
{
    lemma_first_true_none(probes);
}

/// Run the whole start orchestration against given outcomes: the
/// located executable, the post-reconciliation status, the resolved log
/// path, what the spawn returned, and the health probes, one per
/// attempt. The spawn outcome is consulted only when the service did
/// not already respond, so a start against a responding service
/// performs no spawn at all.
pub fn run_start(
    exe: Result<String, String>,
    status: &ServiceStatus,
    log_path: Option<&String>,
    spawn: Result<i32, String>,
    probes: &Vec<bool>,
) -> (r: StartResult)
    requires
        probes@.len() == HEALTH_POLL_ATTEMPTS,
    ensures
        exe matches Err(e) ==> !r.success && r.requires_settings && r.error == Some(e) && r.pid
            is None,
        exe is Ok && status.service_responds ==> r.success && r.pid == status.pid && r.error
            is None && !r.requires_settings,
        exe is Ok && !status.service_responds && log_path is None ==> !r.success && r.pid is None
            && (r.error matches Some(e) && e@ == "Failed to determine log path"@)
            && !r.requires_settings,
        exe is Ok && !status.service_responds && log_path is Some ==> match spawn {
            Err(e) => !r.success && r.pid is None && r.error == Some(e) && !r.requires_settings,
            Ok(pid) => r.pid == Some(pid) && r.success == spec_poll_success(probes@)
                && !r.requires_settings && (r.success <==> r.error is None),
        },
{
    match start_preflight(exe, status) {
        StartStep::ReportMissingExecutable(e) => start_result_missing_executable(e),
        StartStep::ReportAlreadyRunning(pid) => start_result_already_running(pid),
        StartStep::SpawnProcess(_exe_path) => {
            if log_path.is_none() {
                return start_result_spawn_failed(
                    String::from_str("Failed to determine log path"),
                );
            }
            match spawn {
                Err(e) => start_result_spawn_failed(e),
                Ok(pid) => {
                    let (_attempts, healthy) = run_health_poll(probes);
                    start_result_after_poll(
                        pid,
                        healthy,
                        String::from_str(
                            "Process started but not responding after multiple attempts",
                        ),
                    )
                },
            }
        },
    }
}

/// The scheme order a health probe tries: the configured scheme first,
/// the opposite one as the fallback, which covers the misconfiguration
/// window while TLS is being toggled.
pub fn probe_scheme_order(use_tls: bool) -> (r: (&'static str, &'static str))
    ensures
        use_tls ==> r.0@ == "https"@ && r.1@ == "http"@,
        !use_tls ==> r.0@ == "http"@ && r.1@ == "https"@,
{
    if use_tls {
        ("https", "http")
    } else {
        ("http", "https")
    }
}

/// The status endpoint probed on a service.
pub open spec fn spec_health_url(scheme: Seq<char>, hostname: Seq<char>, port: u16) -> Seq<char> {
    scheme + "://"@ + hostname + ":"@ + crate::strutil::spec_dec_digits(port as nat)
        + "/api/v1/status"@
}

/// Build the URL of a service's status endpoint.
pub fn health_url(scheme: &str, hostname: &str, port: u16) -> (r: String)
    ensures
        r@ == spec_health_url(scheme@, hostname@, port),
{
    let mut url = String::from_str(scheme);
    url.append("://");
    url.append(hostname);
    url.append(":");
    let port_dec = crate::strutil::u64_to_dec(port as u64);
    url.append(port_dec.as_str());
    url.append("/api/v1/status");
    url
}

/// Any 2xx answer from the status endpoint counts as healthy; anything
/// else, a connection failure included, does not.
pub fn is_healthy_status(code: u16) -> (r: bool)
    ensures
        r == (200 <= code < 300),
{
    200 <= code && code < 300
}

/// A probe answer is healthy: a status came back at all and it is 2xx.
pub open spec fn spec_probe_healthy(status: Option<u16>) -> bool {
    status matches Some(code) && 200 <= code < 300
}

/// The fallback scheme is probed only when the primary answer was not
/// healthy — a non-2xx status or no connection at all.
pub fn probe_needs_fallback(primary_status: Option<u16>) -> (r: bool)
    ensures
        r == !spec_probe_healthy(primary_status),
{
    match primary_status {
        Some(code) => !is_healthy_status(code),
        None => true,
    }
}

/// The health verdict from the two scheme probes, `None` standing for
/// a failed connection: healthy exactly when the primary scheme
/// answered 2xx or, failing that, the fallback did.
pub fn probe_verdict(primary_status: Option<u16>, fallback_status: Option<u16>) -> (r: bool)
    ensures
        r == (spec_probe_healthy(primary_status) || spec_probe_healthy(fallback_status)),
{
    if !probe_needs_fallback(primary_status) {
        true
    } else {
        match fallback_status {
            Some(code) => is_healthy_status(code),
            None => false,
        }
    }
}

/// The step a stop request takes after the status check.
#[derive(Clone, Copy, Debug)]
pub enum StopStep {
    /// Nothing runs and nothing responds: clear any stale PID file and
    /// report that nothing was stopped.
    AlreadyStopped,
    /// Send termination to this PID.
    TerminatePid(i32),
    /// Something may be running but no PID is recorded: nothing can be
    /// signalled.
    NoPidRecorded,
}

/// How a stop request proceeds, given the current status.
pub open spec fn spec_stop_preflight(s: ServiceStatus) -> StopStep {
    if !s.pid_exists && !s.service_responds {
        StopStep::AlreadyStopped
    } else if s.pid is Some {
        StopStep::TerminatePid(s.pid->0)
    } else {
        StopStep::NoPidRecorded
    }
}

/// Decide how a stop request proceeds.
pub fn stop_preflight(status: &ServiceStatus) -> (d: StopStep)
    ensures
        d == spec_stop_preflight(*status),
{
    if !status.pid_exists && !status.service_responds {
        StopStep::AlreadyStopped
    } else {
        match status.pid {
            Some(pid) => StopStep::TerminatePid(pid),
            None => StopStep::NoPidRecorded,
        }
    }
}

/// After a graceful termination signal, force-kill exactly when the
/// signal failed or the process still exists after the settling wait.
pub fn stop_force_needed(graceful_ok: bool, process_gone_after_wait: bool) -> (force: bool)
    ensures
        force == !(graceful_ok && process_gone_after_wait),
{
    !(graceful_ok && process_gone_after_wait)
}

/// A stop reports success exactly when, after termination was attempted
/// and the settling delay passed, no matching process remains.
pub fn stop_succeeded(remaining_pids: &Vec<i32>) -> (r: bool)
    ensures
        r == (remaining_pids@.len() == 0),
{
    remaining_pids.len() == 0
}

} // verus!
