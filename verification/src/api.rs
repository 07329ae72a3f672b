//! The API service as the supervisor manages it: its log-path rules,
//! the executable-presence requirement, and the status and start-result
//! records its callers receive.

use vstd::prelude::*;

use crate::config::ApiConfig;
use crate::paths::spec_is_absolute_path;
use crate::paths::home_dir_path;
use crate::paths::resolve_log_path;
use crate::supervisor::ServiceStatus;
use crate::supervisor::StartResult;

verus! {

/// The file name the API service logs to by default.
pub fn api_log_name() -> (s: &'static str)
    ensures
        s@ == "api.log"@,
{
    "api.log"
}

/// The binary the API service is spawned from.
pub fn api_binary_name() -> (s: &'static str)
    ensures
        s@ == "bb-api"@,
{
    "bb-api"
}

/// The default API log path under the home directory the environment
/// reports, or nothing when no home directory is known: any path
/// returned is the default file name under the default log directory.
pub fn get_default_api_log_path() -> (r: Option<String>)
    ensures
        r matches Some(p) ==> crate::strutil::spec_ends_with(p@, "/.bb/logs/"@ + "api.log"@),
{
    let home = home_dir_path();
    let r = resolve_log_path(home.as_ref(), None, api_log_name());
    proof {
        crate::paths::lemma_resolve_log_path_shape(
            match home {
                Some(h) => Some(h@),
                None => None,
            },
            None,
            "api.log"@,
        );
    }
    r
}

/// The API log path for a configuration, resolved against the home
/// directory the environment reports: a configured absolute entry is
/// returned as it stands — independent of the home lookup — and any
/// other result lies under the default log directory, named by the
/// configured entry or the default file name.
pub fn get_api_log_path(config: &ApiConfig) -> (r: Option<String>)
    ensures
        config.log_file matches Some(lf) ==> (spec_is_absolute_path(lf@) ==> (r matches Some(p)
            && p@ == lf@)),
        config.log_file matches Some(lf) ==> (!spec_is_absolute_path(lf@) ==> (r matches Some(p)
            ==> crate::strutil::spec_ends_with(p@, "/.bb/logs/"@ + lf@))),
        config.log_file is None ==> (r matches Some(p) ==> crate::strutil::spec_ends_with(
            p@,
            "/.bb/logs/"@ + "api.log"@,
        )),
{
    let home = home_dir_path();
    let r = resolve_log_path(home.as_ref(), config.log_file.as_ref(), api_log_name());
    proof {
        crate::paths::lemma_resolve_log_path_shape(
            match home {
                Some(h) => Some(h@),
                None => None,
            },
            match &config.log_file {
                Some(lf) => Some(lf@),
                None => None,
            },
            "api.log"@,
        );
    }
    r
}

/// Whether the start preconditions hold: the located executable is all
/// that is required.
pub fn verify_api_requirements(located: &Result<String, String>) -> (r: Result<(), String>)
    ensures
        r is Ok <==> located is Ok,
        located matches Err(e) ==> (r matches Err(msg) && msg@ == "BB API binary not found: "@
            + e@),
{
    match located {
        Ok(_) => Ok(()),
        Err(e) => {
            let mut msg = String::from_str("BB API binary not found: ");
            msg.append(e.as_str());
            Err(msg)
        },
    }
}

/// Outcome of an API start request.
#[derive(Clone, Debug)]
pub struct ApiStartResult {
    pub success: bool,
    pub pid: Option<i32>,
    pub error: Option<String>,
    pub requires_settings: bool,
}

impl ApiStartResult {
    /// The shared start outcome, under the API result's name.
    pub fn from_start(r: StartResult) -> (s: ApiStartResult)
        ensures
            s.success == r.success,
            s.pid == r.pid,
            s.error == r.error,
            s.requires_settings == r.requires_settings,
    {
        ApiStartResult {
            success: r.success,
            pid: r.pid,
            error: r.error,
            requires_settings: r.requires_settings,
        }
    }
}

/// Status of the API service, under the field names its callers read.
#[derive(Clone, Debug)]
pub struct ApiStatusCheck {
    pub pid_exists: bool,
    pub process_responds: bool,
    pub api_responds: bool,
    pub pid: Option<i32>,
    pub error: Option<String>,
}

impl ApiStatusCheck {
    /// The shared service status, under the API status's field names.
    pub fn from_status(s: ServiceStatus) -> (r: ApiStatusCheck)
        ensures
            r.pid_exists == s.pid_exists,
            r.process_responds == s.process_responds,
            r.api_responds == s.service_responds,
            r.pid == s.pid,
            r.error == s.error,
    {
        ApiStatusCheck {
            pid_exists: s.pid_exists,
            process_responds: s.process_responds,
            api_responds: s.service_responds,
            pid: s.pid,
            error: s.error,
        }
    }
}

/// The API status for a set of observations, under the API's own
/// status record: the three-level check with its short-circuits, the
/// `api_responds` flag mirroring `service_responds`.
pub fn check_api_status(obs: crate::supervisor::ServiceObservation) -> (r: ApiStatusCheck)
    ensures
        r.api_responds ==> r.process_responds,
        r.process_responds ==> r.pid_exists,
        r.pid_exists ==> r.pid is Some,
        obs is NoPidFile ==> !r.pid_exists && !r.process_responds && !r.api_responds && r.pid
            is None && r.error is None,
        obs matches crate::supervisor::ServiceObservation::ProcessGone { pid } ==> !r.pid_exists
            && !r.api_responds && r.pid == Some(pid) && r.error is None,
        obs matches crate::supervisor::ServiceObservation::Probed { pid, probe: Ok(responds) }
            ==> r.pid_exists && r.pid == Some(pid) && r.api_responds == responds
            && r.process_responds == responds && r.error is None,
        obs matches crate::supervisor::ServiceObservation::Probed { pid, probe: Err(e) }
            ==> r.pid_exists && r.pid == Some(pid) && !r.api_responds && r.error == Some(e),
{
    ApiStatusCheck::from_status(crate::supervisor::check_service_status(obs))
}

/// The argument vector an API or BUI service is spawned with: hostname,
/// port, TLS flag and log file, each as `--flag value`.
pub open spec fn spec_start_args(
    hostname: Seq<char>,
    port: u16,
    use_tls: bool,
    log_path: Seq<char>,
) -> Seq<Seq<char>> {
    seq![
        "--hostname"@,
        hostname,
        "--port"@,
        crate::strutil::spec_dec_digits(port as nat),
        "--use-tls"@,
        if use_tls {
            "true"@
        } else {
            "false"@
        },
        "--log-file"@,
        log_path,
    ]
}

/// Build the argument vector a service is spawned with.
pub fn build_start_args(hostname: &str, port: u16, use_tls: bool, log_path: &str) -> (r: Vec<
    String,
>)
    ensures
        r.deep_view() == spec_start_args(hostname@, port, use_tls, log_path@),
{
    let mut args: Vec<String> = Vec::new();
    args.push(String::from_str("--hostname"));
    args.push(String::from_str(hostname));
    args.push(String::from_str("--port"));
    args.push(crate::strutil::u64_to_dec(port as u64));
    args.push(String::from_str("--use-tls"));
    args.push(crate::strutil::bool_to_str(use_tls));
    args.push(String::from_str("--log-file"));
    args.push(String::from_str(log_path));
    proof {
        assert(args.deep_view() =~~= spec_start_args(hostname@, port, use_tls, log_path@));
    }
    args
}

} // verus!
