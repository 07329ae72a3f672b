//! Version strings as the application reports them: the cleaning rule
//! that keeps only digits and dots, and the records version queries
//! return. Fetching, comparing and parsing release versions is the
//! caller's side of the boundary.

use vstd::prelude::*;

use crate::strutil::spec_is_digit;

verus! {

/// A character the cleaned version string keeps: a digit or a dot.
pub open spec fn spec_is_version_char(c: char) -> bool {
    spec_is_digit(c) || c == '.'
}

/// `s` with everything but digits and dots removed.
pub open spec fn spec_clean_version(s: Seq<char>) -> Seq<char> {
    s.filter(|c: char| spec_is_version_char(c))
}

/// Strip a version string down to its digits and dots, dropping
/// prefixes, quotes and any other decoration.
pub fn clean_version_string(s: &str) -> (r: String)
    ensures
        r@ == spec_clean_version(s@),
{
    let len = s.unicode_len();
    let mut out = String::new();
    let mut i: usize = 0;
    proof {
        reveal(Seq::filter);
        assert(s@.subrange(0, 0) =~= Seq::<char>::empty());
        assert(out@ =~= Seq::<char>::empty().filter(|c: char| spec_is_version_char(c)));
    }
    while i < len
        invariant
            i <= len,
            len == s@.len(),
            out@ == s@.subrange(0, i as int).filter(|c: char| spec_is_version_char(c)),
        decreases len - i,
    {
        let c = s.get_char(i);
        proof {
            reveal(Seq::filter);
            assert(s@.subrange(0, i + 1).drop_last() =~= s@.subrange(0, i as int));
            assert(s@.subrange(0, i + 1).last() == s@[i as int]);
        }
        if (c >= '0' && c <= '9') || c == '.' {
            out.push(c);
        }
        i = i + 1;
    }
    proof {
        assert(s@.subrange(0, len as int) =~= s@);
    }
    out
}

/// The application's own version report.
#[derive(Clone, Debug)]
pub struct VersionInfo {
    pub version: String,
    pub install_location: String,
    pub can_auto_update: bool,
}

/// How the installed binary's version relates to what the application
/// requires and to the newest release.
#[derive(Clone, Debug)]
pub struct VersionCompatibility {
    pub compatible: bool,
    pub current_version: String,
    pub required_version: String,
    pub update_available: bool,
    pub latest_version: Option<String>,
}

/// A release-version cache with an explicit fetch time, owned by its
/// caller instead of living in process-wide state.
#[derive(Clone, Debug)]
pub struct VersionCache {
    pub version: String,
    /// When the value was fetched, in milliseconds since the Unix
    /// epoch.
    pub fetched_at_ms: i64,
}

/// How long a fetched release version stays fresh, in milliseconds.
pub const VERSION_CACHE_TTL_MS: i64 = 3600000;

/// Whether a cached release version is still fresh at `now_ms`: its
/// age is non-negative and under the time-to-live.
pub fn version_cache_fresh(cache: &VersionCache, now_ms: i64) -> (r: bool)
    requires
        cache.fetched_at_ms >= 0,
        now_ms >= 0,
    ensures
        r == (cache.fetched_at_ms <= now_ms && now_ms - cache.fetched_at_ms
            < VERSION_CACHE_TTL_MS),
{
    cache.fetched_at_ms <= now_ms && now_ms - cache.fetched_at_ms < VERSION_CACHE_TTL_MS
}

} // verus!
