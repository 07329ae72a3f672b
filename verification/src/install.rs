//! Installation locations and update reports: where binaries go, user
//! install first and system install as the fallback, and the records
//! update checks hand to the caller.

use vstd::prelude::*;

use crate::paths::user_install_dir;

verus! {

/// Where binaries are installed, and what can be done there.
#[derive(Clone, Debug)]
pub struct InstallLocation {
    pub path: String,
    pub writable: bool,
    pub is_user_install: bool,
}

/// What an application-update check found.
#[derive(Clone, Debug)]
pub struct DuiUpdateInfo {
    pub version: String,
    pub date: Option<String>,
    pub body: String,
    pub download_url: String,
}

/// Pick the installation location: the user-level directory whenever a
/// home directory is known — usable if it exists writable or can be
/// created — falling back to the system directory with its observed
/// writability.
pub fn get_install_location(home: Option<&String>, user_dir_usable: bool, system_writable: bool) -> (r:
    InstallLocation)
    ensures
        home matches Some(h) ==> (user_dir_usable ==> {
            &&& r.path@ == h@ + "/.local/bin"@
            &&& r.writable
            &&& r.is_user_install
        }),
        (home is None || !user_dir_usable) ==> {
            &&& r.path@ == "/usr/local/bin"@
            &&& r.writable == system_writable
            &&& !r.is_user_install
        },
{
    let user_path = match home {
        Some(h) => {
            if user_dir_usable {
                Some(user_install_dir(h.as_str()))
            } else {
                None
            }
        },
        None => None,
    };
    match user_path {
        Some(path) => InstallLocation { path, writable: true, is_user_install: true },
        None => InstallLocation {
            path: crate::paths::system_install_dir(),
            writable: system_writable,
            is_user_install: false,
        },
    }
}

} // verus!
