//! Links handed over by the desktop shell's own URL scheme: strip the
//! scheme prefix, percent-decode the remainder, and repair the common
//! ways the inner URL's scheme arrives mangled before the link is given
//! to the system browser.

use vstd::prelude::*;

use crate::strutil::spec_starts_with;
use crate::strutil::starts_with_str;

verus! {

/// The decoding of `s` as percent-encoded text, or nothing when it is
/// not valid UTF-8 after decoding.
pub uninterp spec fn percent_decoded_of(s: Seq<char>) -> Option<Seq<char>>;

/// Relies on urlencoding::decode: the decoding depends on the
/// characters alone.
#[verifier::external_body]
fn percent_decode(s: &str) -> (r: Option<String>)
    ensures
        r is Some <==> percent_decoded_of(s@) is Some,
        r matches Some(d) ==> percent_decoded_of(s@) == Some(d@),
{
    match urlencoding::decode(s) {
        Ok(d) => Some(d.into_owned()),
        Err(_) => None,
    }
}

/// The link carried inside a shell-scheme URL: what follows the
/// `bblink://` prefix, or nothing when the prefix is absent.
pub open spec fn spec_strip_link_prefix(url: Seq<char>) -> Option<Seq<char>> {
    if spec_starts_with(url, "bblink://"@) {
        Some(url.skip(9))
    } else {
        None
    }
}

/// Strip the shell's own scheme prefix off a handed-over link.
pub fn strip_link_prefix(url: &str) -> (r: Option<String>)
    ensures
        r is Some <==> spec_strip_link_prefix(url@) is Some,
        r matches Some(rest) ==> spec_strip_link_prefix(url@) == Some(rest@),
{
    proof {
        reveal_strlit("bblink://");
    }
    if starts_with_str(url, "bblink://") {
        let len = url.unicode_len();
        let rest = url.substring_char(9, len);
        proof {
            assert(rest@ =~= url@.skip(9));
        }
        Some(String::from_str(rest))
    } else {
        None
    }
}

/// A decoded link with its scheme repaired: a proper `http(s)://` is
/// kept, a missing colon after the scheme is put back, and a bare host
/// gets `https://`.
pub open spec fn spec_ensure_scheme(d: Seq<char>) -> Seq<char> {
    if spec_starts_with(d, "https://"@) || spec_starts_with(d, "http://"@) {
        d
    } else if spec_starts_with(d, "https/"@) {
        "https:/"@ + d.skip(6)
    } else if spec_starts_with(d, "http/"@) {
        "http:/"@ + d.skip(5)
    } else {
        "https://"@ + d
    }
}

/// Repair the scheme of a decoded link.
pub fn ensure_scheme(d: &str) -> (r: String)
    ensures
        r@ == spec_ensure_scheme(d@),
{
    proof {
        reveal_strlit("https://");
        reveal_strlit("http://");
        reveal_strlit("https/");
        reveal_strlit("http/");
    }
    let len = d.unicode_len();
    if starts_with_str(d, "https://") || starts_with_str(d, "http://") {
        String::from_str(d)
    } else if starts_with_str(d, "https/") {
        let mut url = String::from_str("https:/");
        let rest = d.substring_char(6, len);
        proof {
            assert(rest@ =~= d@.skip(6));
        }
        url.append(rest);
        url
    } else if starts_with_str(d, "http/") {
        let mut url = String::from_str("http:/");
        let rest = d.substring_char(5, len);
        proof {
            assert(rest@ =~= d@.skip(5));
        }
        url.append(rest);
        url
    } else {
        let mut url = String::from_str("https://");
        url.append(d);
        url
    }
}

/// The URL handed to the system browser for a decoded-or-raw link:
/// percent-decoding is used when it succeeds, the raw text otherwise,
/// and the scheme is repaired either way.
pub fn normalize_external_link(raw: &str) -> (r: String)
    ensures
        percent_decoded_of(raw@) matches Some(d) ==> r@ == spec_ensure_scheme(d),
        percent_decoded_of(raw@) is None ==> r@ == spec_ensure_scheme(raw@),
{
    match percent_decode(raw) {
        Some(d) => ensure_scheme(d.as_str()),
        None => ensure_scheme(raw),
    }
}

} // verus!
