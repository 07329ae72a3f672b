//! The BUI service as the supervisor manages it: its log-path rules,
//! the executable-presence requirement, and the status and start-result
//! records its callers receive.

use vstd::prelude::*;

use crate::config::BuiConfig;
use crate::paths::spec_is_absolute_path;
use crate::paths::home_dir_path;
use crate::paths::resolve_log_path;
use crate::supervisor::ServiceStatus;
use crate::supervisor::StartResult;

verus! {

/// The file name the BUI service logs to by default.
pub fn bui_log_name() -> (s: &'static str)
    ensures
        s@ == "bui.log"@,
{
    "bui.log"
}

/// The binary the BUI service is spawned from.
pub fn bui_binary_name() -> (s: &'static str)
    ensures
        s@ == "bb-bui"@,
{
    "bb-bui"
}

/// The default BUI log path under the home directory the environment
/// reports, or nothing when no home directory is known: any path
/// returned is the default file name under the default log directory.
pub fn get_default_bui_log_path() -> (r: Option<String>)
    ensures
        r matches Some(p) ==> crate::strutil::spec_ends_with(p@, "/.bb/logs/"@ + "bui.log"@),
{
    let home = home_dir_path();
    let r = resolve_log_path(home.as_ref(), None, bui_log_name());
    proof {
        crate::paths::lemma_resolve_log_path_shape(
            match home {
                Some(h) => Some(h@),
                None => None,
            },
            None,
            "bui.log"@,
        );
    }
    r
}

/// The BUI log path for a configuration, resolved against the home
/// directory the environment reports: a configured absolute entry is
/// returned as it stands — independent of the home lookup — and any
/// other result lies under the default log directory, named by the
/// configured entry or the default file name.
pub fn get_bui_log_path(config: &BuiConfig) -> (r: Option<String>)
    ensures
        config.log_file matches Some(lf) ==> (spec_is_absolute_path(lf@) ==> (r matches Some(p)
            && p@ == lf@)),
        config.log_file matches Some(lf) ==> (!spec_is_absolute_path(lf@) ==> (r matches Some(p)
            ==> crate::strutil::spec_ends_with(p@, "/.bb/logs/"@ + lf@))),
        config.log_file is None ==> (r matches Some(p) ==> crate::strutil::spec_ends_with(
            p@,
            "/.bb/logs/"@ + "bui.log"@,
        )),
{
    let home = home_dir_path();
    let r = resolve_log_path(home.as_ref(), config.log_file.as_ref(), bui_log_name());
    proof {
        crate::paths::lemma_resolve_log_path_shape(
            match home {
                Some(h) => Some(h@),
                None => None,
            },
            match &config.log_file {
                Some(lf) => Some(lf@),
                None => None,
            },
            "bui.log"@,
        );
    }
    r
}

/// Whether the start preconditions hold: the located executable is all
/// that is required.
pub fn verify_bui_requirements(located: &Result<String, String>) -> (r: Result<(), String>)
    ensures
        r is Ok <==> located is Ok,
        located matches Err(e) ==> (r matches Err(msg) && msg@ == "BB BUI binary not found: "@
            + e@),
{
    match located {
        Ok(_) => Ok(()),
        Err(e) => {
            let mut msg = String::from_str("BB BUI binary not found: ");
            msg.append(e.as_str());
            Err(msg)
        },
    }
}

/// Outcome of a BUI start request.
#[derive(Clone, Debug)]
pub struct BuiStartResult {
    pub success: bool,
    pub pid: Option<i32>,
    pub error: Option<String>,
    pub requires_settings: bool,
}

impl BuiStartResult {
    /// The shared start outcome, under the BUI result's name.
    pub fn from_start(r: StartResult) -> (s: BuiStartResult)
        ensures
            s.success == r.success,
            s.pid == r.pid,
            s.error == r.error,
            s.requires_settings == r.requires_settings,
    {
        BuiStartResult {
            success: r.success,
            pid: r.pid,
            error: r.error,
            requires_settings: r.requires_settings,
        }
    }
}

/// Status of the BUI service, under the field names its callers read;
/// the record kept the API status's name when the BUI gained it.
#[derive(Clone, Debug)]
pub struct ApiStatusCheck {
    pub pid_exists: bool,
    pub process_responds: bool,
    pub bui_responds: bool,
    pub pid: Option<i32>,
    pub error: Option<String>,
}

/// The BUI status for a set of observations, under the BUI's own
/// status record: the three-level check with its short-circuits, the
/// `bui_responds` flag mirroring `service_responds`.
pub fn check_bui_status(obs: crate::supervisor::ServiceObservation) -> (r: ApiStatusCheck)
    ensures
        r.bui_responds ==> r.process_responds,
        r.process_responds ==> r.pid_exists,
        r.pid_exists ==> r.pid is Some,
        obs is NoPidFile ==> !r.pid_exists && !r.process_responds && !r.bui_responds && r.pid
            is None && r.error is None,
        obs matches crate::supervisor::ServiceObservation::ProcessGone { pid } ==> !r.pid_exists
            && !r.bui_responds && r.pid == Some(pid) && r.error is None,
        obs matches crate::supervisor::ServiceObservation::Probed { pid, probe: Ok(responds) }
            ==> r.pid_exists && r.pid == Some(pid) && r.bui_responds == responds
            && r.process_responds == responds && r.error is None,
        obs matches crate::supervisor::ServiceObservation::Probed { pid, probe: Err(e) }
            ==> r.pid_exists && r.pid == Some(pid) && !r.bui_responds && r.error == Some(e),
{
    ApiStatusCheck::from_status(crate::supervisor::check_service_status(obs))
}

impl ApiStatusCheck {
    /// The shared service status, under the BUI status's field names.
    pub fn from_status(s: ServiceStatus) -> (r: ApiStatusCheck)
        ensures
            r.pid_exists == s.pid_exists,
            r.process_responds == s.process_responds,
            r.bui_responds == s.service_responds,
            r.pid == s.pid,
            r.error == s.error,
    {
        ApiStatusCheck {
            pid_exists: s.pid_exists,
            process_responds: s.process_responds,
            bui_responds: s.service_responds,
            pid: s.pid,
            error: s.error,
        }
    }
}

} // verus!
