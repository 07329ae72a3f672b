//! Filesystem locations as plain strings: log directories, PID-file
//! paths, and the user-then-system search for the service executables.
//! The directory the environment reports as home comes through a trusted
//! call; everything derived from it is computed and specified here.

use vstd::prelude::*;

use crate::strutil::spec_contains;
use crate::strutil::spec_starts_with;
use crate::strutil::contains_str;
use crate::strutil::starts_with_str;
use crate::strutil::str_eq;

verus! {

/// Relies on dirs::home_dir: the user's home directory as the
/// environment reports it; nothing can be promised of its value.
#[verifier::external_body]
pub(crate) fn home_dir_path() -> Option<String> {
    match dirs::home_dir() {
        Some(p) => Some(p.to_string_lossy().into_owned()),
        None => None,
    }
}

/// `dir/name`.
pub fn join_path(dir: &str, name: &str) -> (r: String)
    ensures
        r@ == dir@ + "/"@ + name@,
{
    let mut p = String::from_str(dir);
    p.append("/");
    p.append(name);
    p
}

/// The default log directory under a home directory.
pub fn default_log_dir_under(home: &str) -> (r: String)
    ensures
        r@ == home@ + "/.bb/logs"@,
{
    let mut p = String::from_str(home);
    p.append("/.bb/logs");
    p
}

/// The runtime directory holding the PID files, under a home directory.
pub fn runtime_dir_under(home: &str) -> (r: String)
    ensures
        r@ == home@ + "/.bb/run"@,
{
    let mut p = String::from_str(home);
    p.append("/.bb/run");
    p
}

/// A path is absolute when it starts at the root or carries a drive
/// separator.
pub open spec fn spec_is_absolute_path(p: Seq<char>) -> bool {
    spec_starts_with(p, "/"@) || spec_contains(p, ":\\"@)
}

/// Whether a configured log-file entry is an absolute path.
pub fn is_absolute_path(p: &str) -> (r: bool)
    ensures
        r == spec_is_absolute_path(p@),
{
    starts_with_str(p, "/") || contains_str(p, ":\\")
}

/// Where the log of a service is written, from its configured entry and
/// the home directory: an absolute entry is taken as it stands, a
/// relative one goes under the default log directory, and a missing one
/// falls back to the default file name there.
pub open spec fn spec_resolve_log_path(
    home: Option<Seq<char>>,
    log_file: Option<Seq<char>>,
    default_name: Seq<char>,
) -> Option<Seq<char>> {
    match log_file {
        Some(lf) => if spec_is_absolute_path(lf) {
            Some(lf)
        } else {
            match home {
                Some(h) => Some(h + "/.bb/logs"@ + "/"@ + lf),
                None => None,
            }
        },
        None => match home {
            Some(h) => Some(h + "/.bb/logs"@ + "/"@ + default_name),
            None => None,
        },
    }
}

/// Whatever home directory the resolution ran against, the shape of a
/// resolved log path is fixed: a configured absolute entry comes back
/// as it stands — a `Some` result is then owed — and any other `Some`
/// result ends in the default log directory joined with the configured
/// entry or the default file name.
pub proof fn lemma_resolve_log_path_shape(
    home: Option<Seq<char>>,
    log_file: Option<Seq<char>>,
    default_name: Seq<char>,
)
    ensures
        log_file matches Some(lf) ==> (spec_is_absolute_path(lf) ==> spec_resolve_log_path(
            home,
            log_file,
            default_name,
        ) == Some(lf)),
        log_file matches Some(lf) ==> (!spec_is_absolute_path(lf) ==> (spec_resolve_log_path(
            home,
            log_file,
            default_name,
        ) matches Some(p) ==> crate::strutil::spec_ends_with(p, "/.bb/logs/"@ + lf))),
        log_file is None ==> (spec_resolve_log_path(home, log_file, default_name) matches Some(p)
            ==> crate::strutil::spec_ends_with(p, "/.bb/logs/"@ + default_name)),
{
    reveal_strlit("/.bb/logs");
    reveal_strlit("/");
    reveal_strlit("/.bb/logs/");
    assert("/.bb/logs"@ + "/"@ =~= "/.bb/logs/"@);
    if home is Some {
        let h = home->0;
        let entry = match log_file {
            Some(lf) => lf,
            None => default_name,
        };
        let p = h + "/.bb/logs"@ + "/"@ + entry;
        assert(p =~= h + ("/.bb/logs/"@ + entry));
        assert(p.subrange(h.len() as int, p.len() as int) =~= "/.bb/logs/"@ + entry);
        assert(crate::strutil::spec_ends_with(p, "/.bb/logs/"@ + entry));
    }
}

/// Resolve the log path for one service from plain values.
pub fn resolve_log_path(home: Option<&String>, log_file: Option<&String>, default_name: &str) -> (r:
    Option<String>)
    ensures
        r matches Some(p) ==> Some(p@) == spec_resolve_log_path(
            match home {
                Some(h) => Some(h@),
                None => None,
            },
            match log_file {
                Some(lf) => Some(lf@),
                None => None,
            },
            default_name@,
        ),
        r is Some <==> spec_resolve_log_path(
            match home {
                Some(h) => Some(h@),
                None => None,
            },
            match log_file {
                Some(lf) => Some(lf@),
                None => None,
            },
            default_name@,
        ) is Some,
{
    match log_file {
        Some(lf) => {
            if is_absolute_path(lf.as_str()) {
                Some(lf.clone())
            } else {
                match home {
                    Some(h) => {
                        let dir = default_log_dir_under(h.as_str());
                        Some(join_path(dir.as_str(), lf.as_str()))
                    },
                    None => None,
                }
            }
        },
        None => match home {
            Some(h) => {
                let dir = default_log_dir_under(h.as_str());
                Some(join_path(dir.as_str(), default_name))
            },
            None => None,
        },
    }
}

/// The user-level directory the executables are installed under.
pub fn user_install_dir(home: &str) -> (r: String)
    ensures
        r@ == home@ + "/.local/bin"@,
{
    let mut p = String::from_str(home);
    p.append("/.local/bin");
    p
}

/// The system-level directory the executables are installed under.
pub fn system_install_dir() -> (r: String)
    ensures
        r@ == "/usr/local/bin"@,
{
    String::from_str("/usr/local/bin")
}

/// Where the executable search lands: the user-level binary when home is
/// known and it exists there, else the system-level binary when that
/// exists, else an error naming the binary.
pub open spec fn spec_locate_executable(
    name: Seq<char>,
    home: Option<Seq<char>>,
    user_exists: bool,
    system_exists: bool,
) -> Result<Seq<char>, Seq<char>> {
    if home is Some && user_exists {
        Ok(home->0 + "/.local/bin"@ + "/"@ + name)
    } else if system_exists {
        Ok("/usr/local/bin"@ + "/"@ + name)
    } else {
        Err("Could not find "@ + name + " in the user or system install location"@)
    }
}

/// Pick the executable path from the search outcome per location:
/// user-level first, system-level second, an error naming the binary
/// when neither has it.
pub fn locate_executable(name: &str, home: Option<&String>, user_exists: bool, system_exists: bool) -> (r:
    Result<String, String>)
    ensures
        ({
            let spec_r = spec_locate_executable(
                name@,
                match home {
                    Some(h) => Some(h@),
                    None => None,
                },
                user_exists,
                system_exists,
            );
            &&& (r matches Ok(p) ==> Ok::<Seq<char>, Seq<char>>(p@) == spec_r)
            &&& (r matches Err(e) ==> Err::<Seq<char>, Seq<char>>(e@) == spec_r)
        }),
{
    let user_hit = match home {
        Some(h) => {
            if user_exists {
                let dir = user_install_dir(h.as_str());
                Some(join_path(dir.as_str(), name))
            } else {
                None
            }
        },
        None => None,
    };
    match user_hit {
        Some(p) => Ok(p),
        None => {
            if system_exists {
                let dir = system_install_dir();
                Ok(join_path(dir.as_str(), name))
            } else {
                let mut e = String::from_str("Could not find ");
                e.append(name);
                e.append(" in the user or system install location");
                Err(e)
            }
        },
    }
}

/// The PID file of a service, under the runtime directory: `api.pid` or
/// `bui.pid`; any other service name is rejected.
pub open spec fn spec_pid_file_path(runtime_dir: Seq<char>, service: Seq<char>) -> Result<
    Seq<char>,
    Seq<char>,
> {
    if service == "api"@ {
        Ok(runtime_dir + "/"@ + "api.pid"@)
    } else if service == "bui"@ {
        Ok(runtime_dir + "/"@ + "bui.pid"@)
    } else {
        Err("Invalid service name: "@ + service)
    }
}

/// The PID-file path of a known service under the runtime directory.
pub fn get_pid_file_path(runtime_dir: &str, service: &str) -> (r: Result<String, String>)
    ensures
        (r matches Ok(p) ==> Ok::<Seq<char>, Seq<char>>(p@) == spec_pid_file_path(
            runtime_dir@,
            service@,
        )),
        (r matches Err(e) ==> Err::<Seq<char>, Seq<char>>(e@) == spec_pid_file_path(
            runtime_dir@,
            service@,
        )),
{
    if str_eq(service, "api") {
        Ok(join_path(runtime_dir, "api.pid"))
    } else if str_eq(service, "bui") {
        Ok(join_path(runtime_dir, "bui.pid"))
    } else {
        let mut e = String::from_str("Invalid service name: ");
        e.append(service);
        Err(e)
    }
}

/// The longest path Windows accepts without extended-length syntax.
pub const WINDOWS_MAX_PATH: usize = 260;

/// Reject an installation path beyond the Windows path-length limit.
pub fn check_windows_path_length(path: &str) -> (r: Result<(), String>)
    ensures
        r is Ok <==> path@.len() <= WINDOWS_MAX_PATH,
        r matches Err(e) ==> e@ == "Installation path too long (Windows limit is 260 characters)"@,
{
    if path.unicode_len() > WINDOWS_MAX_PATH {
        Err(String::from_str("Installation path too long (Windows limit is 260 characters)"))
    } else {
        Ok(())
    }
}

} // verus!
