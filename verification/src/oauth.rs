//! The result record an OAuth flow hands back to the application; the
//! window handling that produces it is the caller's side of the
//! boundary.

use vstd::prelude::*;

verus! {

/// What an OAuth flow ended with.
#[derive(Clone, Debug)]
pub struct OAuthResult {
    pub success: bool,
    pub provider: String,
    pub server_id: Option<String>,
    pub code: Option<String>,
    pub state: Option<String>,
    pub error: Option<String>,
}

impl OAuthResult {
    /// A completed flow: the provider's code, and the state echo when
    /// one was sent.
    pub fn completed(provider: String, server_id: Option<String>, code: String, state: Option<
        String,
    >) -> (r: OAuthResult)
        ensures
            r.success,
            r.provider == provider,
            r.server_id == server_id,
            r.code == Some(code),
            r.state == state,
            r.error is None,
    {
        OAuthResult { success: true, provider, server_id, code: Some(code), state, error: None }
    }

    /// A failed flow, with the error to surface.
    pub fn failed(provider: String, error: String) -> (r: OAuthResult)
        ensures
            !r.success,
            r.provider == provider,
            r.server_id is None,
            r.code is None,
            r.state is None,
            r.error == Some(error),
    {
        OAuthResult {
            success: false,
            provider,
            server_id: None,
            code: None,
            state: None,
            error: Some(error),
        }
    }
}

} // verus!
