//! The embedded reverse proxy: port selection from the fixed candidate
//! list, the shared proxy state with its target and debug flags, request
//! classification, forward planning with the HTTPS-only rule, and the
//! synthesized responses for upstream failures.

use vstd::prelude::*;

use crate::access_log::AccessLogEntry;
use crate::strutil::spec_contains;
use crate::strutil::spec_dec_digits;
use crate::strutil::spec_starts_with;
use crate::strutil::contains_str;
use crate::strutil::starts_with_str;
use crate::strutil::str_eq;
use crate::strutil::u64_to_dec;
use crate::supervisor::spec_first_true;
use crate::supervisor::lemma_first_true_props;

verus! {

/// The lowercase folding of a string, as `str::to_lowercase` computes it.
pub uninterp spec fn lower_of(s: Seq<char>) -> Seq<char>;

/// Relies on str::to_lowercase: the result depends on the characters
/// alone.
#[verifier::external_body]
fn lowercase(s: &str) -> (r: String)
    ensures
        r@ == lower_of(s@),
{
    s.to_lowercase()
}

/// The scheme of `s` when it parses as a URL, or nothing when it does
/// not.
pub uninterp spec fn url_scheme_of(s: Seq<char>) -> Option<Seq<char>>;

/// Relies on url::Url::parse and url::Url::scheme: whether a string
/// parses and what its scheme is are functions of the string alone.
#[verifier::external_body]
fn parse_url_scheme(s: &str) -> (r: Option<String>)
    ensures
        r is Some <==> url_scheme_of(s@) is Some,
        r matches Some(sch) ==> url_scheme_of(s@) == Some(sch@),
{
    match url::Url::parse(s) {
        Ok(u) => Some(u.scheme().to_owned()),
        Err(_) => None,
    }
}

/// The host of `s` when it parses as a URL with a host.
pub uninterp spec fn url_host_of(s: Seq<char>) -> Option<Seq<char>>;

/// Relies on url::Url::parse and url::Url::host_str: a URL's host is a
/// function of the string alone.
#[verifier::external_body]
fn parse_url_host(s: &str) -> (r: Option<String>)
    ensures
        r is Some <==> url_host_of(s@) is Some,
        r matches Some(h) ==> url_host_of(s@) == Some(h@),
{
    match url::Url::parse(s) {
        Ok(u) => match u.host_str() {
            Some(h) => Some(h.to_owned()),
            None => None,
        },
        Err(_) => None,
    }
}

/// The explicit port of `s` when it parses as a URL with one.
pub uninterp spec fn url_port_of(s: Seq<char>) -> Option<u16>;

/// Relies on url::Url::parse and url::Url::port: a URL's explicit port
/// is a function of the string alone.
#[verifier::external_body]
fn parse_url_port(s: &str) -> (r: Option<u16>)
    ensures
        r == url_port_of(s@),
{
    match url::Url::parse(s) {
        Ok(u) => u.port(),
        Err(_) => None,
    }
}

/// The ordered candidate ports the proxy tries to bind, lowest first.
pub open spec fn spec_fallback_ports() -> Seq<u16> {
    seq![45000u16, 45001u16, 45002u16, 45003u16, 45004u16, 45005u16, 45006u16, 45007u16, 45008u16, 45009u16]
}

/// The ordered candidate ports the proxy tries to bind, lowest first.
pub fn fallback_ports() -> (v: Vec<u16>)
    ensures
        v@ == spec_fallback_ports(),
{
    let mut v: Vec<u16> = Vec::new();
    v.push(45000);
    v.push(45001);
    v.push(45002);
    v.push(45003);
    v.push(45004);
    v.push(45005);
    v.push(45006);
    v.push(45007);
    v.push(45008);
    v.push(45009);
    proof {
        assert(v@ =~= spec_fallback_ports());
    }
    v
}

/// The upstream the proxy forwards to until a target is set.
pub fn default_target() -> (s: &'static str)
    ensures
        s@ == "https://chat.beyondbetter.dev"@,
{
    "https://chat.beyondbetter.dev"
}

/// The reserved path on which the proxy answers for itself, bypassing
/// the upstream.
pub fn health_check_path() -> (s: &'static str)
    ensures
        s@ == "/_health"@,
{
    "/_health"
}

/// The port construction picks, given which candidates are free: the
/// lowest-numbered free one, or nothing when all are occupied.
pub open spec fn spec_choose_port(available: Seq<bool>) -> Option<u16> {
    if spec_first_true(available) < available.len() {
        Some(spec_fallback_ports()[spec_first_true(available)])
    } else {
        None
    }
}

/// Pick the first free port from the candidate list; `available[i]`
/// states whether candidate `i` can be bound.
pub fn choose_port(available: &Vec<bool>) -> (r: Option<u16>)
    requires
        available@.len() == spec_fallback_ports().len(),
    ensures
        r == spec_choose_port(available@),
{
    let ports = fallback_ports();
    let mut i: usize = 0;
    while i < 10
        invariant
            i <= 10,
            available@.len() == 10,
            ports@ == spec_fallback_ports(),
            forall|j: int| 0 <= j < i ==> !available@[j],
        decreases 10 - i,
    {
        if available[i] {
            proof {
                lemma_first_true_props(available@);
                assert(spec_first_true(available@) == i);
            }
            return Some(ports[i]);
        }
        i = i + 1;
    }
    proof {
        lemma_first_true_props(available@);
    }
    None
}

/// Construction picks the lowest-numbered free candidate port; when all
/// are occupied it fails with the distinct no-port-available condition,
/// and nothing else ever produces that condition.
pub proof fn lemma_port_choice(available: Seq<bool>)
    requires
        available.len() == spec_fallback_ports().len(),
    ensures
        spec_choose_port(available) is None <==> forall|j: int|
            0 <= j < available.len() ==> !available[j],
        spec_choose_port(available) matches Some(p) ==> exists|k: int|
            {
                &&& 0 <= k < available.len()
                &&& available[k]
                &&& p == spec_fallback_ports()[k]
                &&& forall|j: int| 0 <= j < k ==> !available[j]
            },
{
    lemma_first_true_props(available);
    if spec_first_true(available) < available.len() {
        let k = spec_first_true(available);
        assert(0 <= k < available.len() && available[k] && spec_choose_port(available)
            == Some(spec_fallback_ports()[k]) && forall|j: int| 0 <= j < k ==> !available[j]);
    }
}

/// Why proxy construction failed.
#[derive(PartialEq, Eq, Structural, Clone, Copy, Debug)]
pub enum ProxyInitError {
    /// No candidate port was free: fatal for the proxy, distinct from
    /// every other failure.
    NoPortAvailable,
}

/// The long-lived state of the reverse proxy. The port is fixed at
/// construction; target, debug flag and running flag change over its
/// life.
#[derive(Clone, Debug)]
pub struct ProxyState {
    pub port: u16,
    pub target_url: String,
    pub debug_mode: bool,
    pub running: bool,
}

/// A snapshot of the proxy state, as reported to callers.
#[derive(Clone, Debug)]
pub struct ProxyInfo {
    pub port: u16,
    pub target: String,
    pub is_running: bool,
}

impl ProxyState {
    /// Construct the proxy on the lowest-numbered free candidate port,
    /// with the default target, not yet running.
    pub fn construct(available: &Vec<bool>, debug_mode: bool) -> (r: Result<
        ProxyState,
        ProxyInitError,
    >)
        requires
            available@.len() == spec_fallback_ports().len(),
        ensures
            r is Ok <==> spec_choose_port(available@) is Some,
            r matches Ok(p) ==> {
                &&& Some(p.port) == spec_choose_port(available@)
                &&& p.target_url@ == "https://chat.beyondbetter.dev"@
                &&& p.debug_mode == debug_mode
                &&& !p.running
            },
            r matches Err(e) ==> e == ProxyInitError::NoPortAvailable,
    {
        match choose_port(available) {
            Some(port) => Ok(
                ProxyState {
                    port,
                    target_url: String::from_str(default_target()),
                    debug_mode,
                    running: false,
                },
            ),
            None => Err(ProxyInitError::NoPortAvailable),
        }
    }

    /// Report port, current target and whether the proxy serves.
    pub fn info(&self) -> (r: ProxyInfo)
        ensures
            r.port == self.port,
            r.target@ == self.target_url@,
            r.is_running == self.running,
    {
        ProxyInfo { port: self.port, target: self.target_url.clone(), is_running: self.running }
    }

    /// Mark the proxy running. Idempotent: starting a running proxy
    /// changes nothing.
    pub fn start(&mut self)
        ensures
            final(self).running,
            final(self).port == old(self).port,
            final(self).target_url == old(self).target_url,
            final(self).debug_mode == old(self).debug_mode,
    {
        self.running = true;
    }

    /// Mark the proxy stopped. Idempotent and never failing.
    pub fn stop(&mut self)
        ensures
            !final(self).running,
            final(self).port == old(self).port,
            final(self).target_url == old(self).target_url,
            final(self).debug_mode == old(self).debug_mode,
    {
        self.running = false;
    }

    /// Toggle whether the access log records every request or only
    /// failing ones.
    pub fn set_debug_mode(&mut self, debug_mode: bool)
        ensures
            final(self).debug_mode == debug_mode,
            final(self).port == old(self).port,
            final(self).target_url == old(self).target_url,
            final(self).running == old(self).running,
    {
        self.debug_mode = debug_mode;
    }

    /// Replace the target, accepting only an HTTPS URL: anything else is
    /// rejected before being applied and the previous target remains in
    /// effect.
    pub fn set_target(&mut self, target: &str) -> (r: Result<(), String>)
        ensures
            r is Ok <==> url_scheme_of(target@) == Some("https"@),
            r is Ok ==> final(self).target_url@ == target@,
            r is Err ==> final(self).target_url == old(self).target_url,
            final(self).port == old(self).port,
            final(self).debug_mode == old(self).debug_mode,
            final(self).running == old(self).running,
    {
        match parse_url_scheme(target) {
            Some(scheme) => {
                if str_eq(scheme.as_str(), "https") {
                    self.target_url = String::from_str(target);
                    Ok(())
                } else {
                    Err(String::from_str("Invalid URL scheme. Only HTTPS URLs are allowed."))
                }
            },
            None => Err(String::from_str("Invalid target URL")),
        }
    }
}

/// How one inbound request is handled.
#[derive(PartialEq, Eq, Structural, Clone, Copy, Debug)]
pub enum RequestClass {
    /// The proxy's own liveness path: answered directly with 200.
    HealthCheck,
    /// A WebSocket upgrade: handed to the WebSocket path.
    WebSocketUpgrade,
    /// Everything else: forwarded to the upstream.
    ForwardToUpstream,
}

/// Classify a request from its path and its `Upgrade` header: the
/// internal health path is answered locally, an upgrade header naming
/// websocket switches to the WebSocket path, all else is forwarded.
pub fn classify_request(path: &str, upgrade_header: Option<&str>) -> (c: RequestClass)
    ensures
        path@ == "/_health"@ ==> c == RequestClass::HealthCheck,
        path@ != "/_health"@ ==> match upgrade_header {
            Some(h) => if spec_contains(lower_of(h@), "websocket"@) {
                c == RequestClass::WebSocketUpgrade
            } else {
                c == RequestClass::ForwardToUpstream
            },
            None => c == RequestClass::ForwardToUpstream,
        },
{
    if str_eq(path, health_check_path()) {
        RequestClass::HealthCheck
    } else {
        match upgrade_header {
            Some(h) => {
                let low = lowercase(h);
                if contains_str(low.as_str(), "websocket") {
                    RequestClass::WebSocketUpgrade
                } else {
                    RequestClass::ForwardToUpstream
                }
            },
            None => RequestClass::ForwardToUpstream,
        }
    }
}

/// The body of the proxy's own liveness answer.
pub fn health_check_body() -> (s: &'static str)
    ensures
        s@ == "OK"@,
{
    "OK"
}

/// The proxy fronts the services only when the API does not serve TLS
/// itself; a TLS-serving API is reached directly.
pub fn proxy_needed(api_uses_tls: bool) -> (r: bool)
    ensures
        r == !api_uses_tls,
{
    !api_uses_tls
}

/// The headers relayed to the upstream: every inbound header except
/// `Host`, which is replaced by the target's own. Keys are expected in
/// their lowercase wire form.
pub open spec fn spec_forward_headers(headers: Seq<(Seq<char>, Seq<char>)>) -> Seq<
    (Seq<char>, Seq<char>),
> {
    headers.filter(|kv: (Seq<char>, Seq<char>)| kv.0 != "host"@)
}

/// Drop the inbound `Host` header, keeping everything else in order.
pub fn strip_host_header(headers: &Vec<(String, String)>) -> (r: Vec<(String, String)>)
    ensures
        r.deep_view() == spec_forward_headers(headers.deep_view()),
{
    let mut out: Vec<(String, String)> = Vec::new();
    let mut i: usize = 0;
    let ghost all = headers.deep_view();
    let ghost pred = |kv: (Seq<char>, Seq<char>)| kv.0 != "host"@;
    proof {
        reveal(Seq::filter);
        assert(all.subrange(0, 0) =~~= Seq::<(Seq<char>, Seq<char>)>::empty());
        assert(out.deep_view() =~~= all.subrange(0, 0).filter(pred));
    }
    while i < headers.len()
        invariant
            i <= headers@.len(),
            all == headers.deep_view(),
            all.len() == headers@.len(),
            pred == (|kv: (Seq<char>, Seq<char>)| kv.0 != "host"@),
            out.deep_view() == all.subrange(0, i as int).filter(pred),
        decreases headers@.len() - i,
    {
        proof {
            reveal(Seq::filter);
            assert(all.subrange(0, i + 1).drop_last() =~~= all.subrange(0, i as int));
            assert(all.subrange(0, i + 1).last() == all[i as int]);
            assert(all[i as int] == (headers@[i as int].0@, headers@[i as int].1@));
        }
        let key = headers[i].0.clone();
        let value = headers[i].1.clone();
        if !str_eq(key.as_str(), "host") {
            let ghost before = out.deep_view();
            out.push((key, value));
            proof {
                assert(out.deep_view() =~~= before.push(all[i as int]));
            }
        }
        i = i + 1;
    }
    proof {
        assert(all.subrange(0, all.len() as int) =~~= all);
    }
    out
}

/// Path plus the query string when there is one.
pub open spec fn spec_path_query(path: Seq<char>, query: Option<Seq<char>>) -> Seq<char> {
    match query {
        Some(q) => path + "?"@ + q,
        None => path,
    }
}

/// The full upstream URL for a request: target, path, and the query
/// when there is one.
pub open spec fn spec_forward_url(target: Seq<char>, path: Seq<char>, query: Option<Seq<char>>) -> Seq<
    char,
> {
    target + spec_path_query(path, query)
}

/// Concatenate target, path and optional query into the upstream URL.
pub fn build_forward_url(target: &str, path: &str, query: Option<&str>) -> (r: String)
    ensures
        r@ == spec_forward_url(target@, path@, match query {
            Some(q) => Some(q@),
            None => None,
        }),
{
    let mut url = String::from_str(target);
    url.append(path);
    match query {
        Some(q) => {
            url.append("?");
            url.append(q);
            proof {
                assert(url@ =~= spec_forward_url(target@, path@, Some(q@)));
            }
        },
        None => {},
    }
    url
}

/// Leading part of the maintenance page, up to the embedded error text.
pub fn maintenance_head() -> (s: &'static str)
    ensures
        s@ == spec_maintenance_head(),
{
    "<!DOCTYPE html><html><head><title>Service Unavailable</title></head><body><h1>Service temporarily unavailable</h1><p class='text-red-600 dark:text-red-400'>Error: "
}

/// Trailing part of the maintenance page, after the embedded error text.
pub fn maintenance_tail() -> (s: &'static str)
    ensures
        s@ == spec_maintenance_tail(),
{
    "</p><p>The upstream could not be reached. Please try again shortly.</p></body></html>"
}

pub open spec fn spec_maintenance_head() -> Seq<char> {
    "<!DOCTYPE html><html><head><title>Service Unavailable</title></head><body><h1>Service temporarily unavailable</h1><p class='text-red-600 dark:text-red-400'>Error: "@
}

pub open spec fn spec_maintenance_tail() -> Seq<char> {
    "</p><p>The upstream could not be reached. Please try again shortly.</p></body></html>"@
}

/// The rendered maintenance page with `msg` embedded in its error line.
pub open spec fn spec_maintenance_page(msg: Seq<char>) -> Seq<char> {
    spec_maintenance_head() + msg + spec_maintenance_tail()
}

/// Render the maintenance page shown in place of an unreachable
/// upstream, with the error text embedded.
pub fn maintenance_page(msg: &str) -> (r: String)
    ensures
        r@ == spec_maintenance_page(msg@),
{
    let mut page = String::from_str(maintenance_head());
    page.append(msg);
    page.append(maintenance_tail());
    page
}

/// The maintenance page contains the error text it was rendered with.
pub proof fn lemma_maintenance_embeds_error(msg: Seq<char>)
    ensures
        spec_contains(spec_maintenance_page(msg), msg),
{
    let head = spec_maintenance_head();
    let page = spec_maintenance_page(msg);
    assert(page.subrange(head.len() as int, head.len() + msg.len() as int) =~= msg);
    assert(crate::strutil::spec_match_at(page, msg, head.len() as int));
}

/// A response the proxy synthesizes itself instead of relaying the
/// upstream.
#[derive(Clone, Debug)]
pub struct SynthesizedResponse {
    pub status: u16,
    pub body: String,
}

/// Everything needed to issue the upstream request for one forwarded
/// call: the URL, the rewritten `Host` header, the forwarding headers
/// and the fixed timeout.
#[derive(Clone, Debug)]
pub struct ForwardPlan {
    pub url: String,
    pub host_header: Option<String>,
    pub forwarded_for: String,
    pub forwarded_proto: String,
    pub forwarded_host: String,
    pub timeout_ms: u64,
}

/// The `Host` header for an upstream URL: `host` or `host:port` when the
/// URL carries a host, nothing otherwise.
pub open spec fn spec_host_header(url: Seq<char>) -> Option<Seq<char>> {
    match url_host_of(url) {
        Some(h) => match url_port_of(url) {
            Some(p) => Some(h + ":"@ + spec_dec_digits(p as nat)),
            None => Some(h),
        },
        None => None,
    }
}

/// Plan a plain HTTP forward: build the upstream URL, reject it with an
/// internal error page unless it is HTTPS, and otherwise fix the Host
/// and forwarding headers and the ten-second timeout.
pub fn plan_forward(target: &str, path: &str, query: Option<&str>, proxy_port: u16) -> (r: Result<
    ForwardPlan,
    SynthesizedResponse,
>)
    ensures
        ({
            let url = spec_forward_url(target@, path@, match query {
                Some(q) => Some(q@),
                None => None,
            });
            &&& r is Ok <==> spec_starts_with(url, "https://"@)
            &&& (r matches Ok(plan) ==> {
                &&& plan.url@ == url
                &&& plan.host_header matches Some(h) ==> Some(h@) == spec_host_header(url)
                &&& plan.host_header is None ==> spec_host_header(url) is None
                &&& plan.forwarded_for@ == "127.0.0.1"@
                &&& plan.forwarded_proto@ == "http"@
                &&& plan.forwarded_host@ == "localhost:"@ + spec_dec_digits(proxy_port as nat)
                &&& plan.timeout_ms == 10000
            })
            &&& (r matches Err(resp) ==> resp.status == 500 && resp.body@ == spec_maintenance_page(
                "Invalid target URL scheme - must be HTTPS"@,
            ))
        }),
{
    let url = build_forward_url(target, path, query);
    if !starts_with_str(url.as_str(), "https://") {
        return Err(
            SynthesizedResponse {
                status: 500,
                body: maintenance_page("Invalid target URL scheme - must be HTTPS"),
            },
        );
    }
    let host_header = match parse_url_host(url.as_str()) {
        Some(host) => match parse_url_port(url.as_str()) {
            Some(port) => {
                let mut h = host;
                h.append(":");
                let port_dec = u64_to_dec(port as u64);
                h.append(port_dec.as_str());
                Some(h)
            },
            None => Some(host),
        },
        None => None,
    };
    let mut forwarded_host = String::from_str("localhost:");
    let port_dec = u64_to_dec(proxy_port as u64);
    forwarded_host.append(port_dec.as_str());
    Ok(
        ForwardPlan {
            url,
            host_header,
            forwarded_for: String::from_str("127.0.0.1"),
            forwarded_proto: String::from_str("http"),
            forwarded_host,
            timeout_ms: 10000,
        },
    )
}

/// The `Upgrade` header asks for a WebSocket, case-insensitively.
pub open spec fn spec_is_ws_upgrade(h: Option<Seq<char>>) -> bool {
    match h {
        Some(x) => spec_contains(lower_of(x), "websocket"@),
        None => false,
    }
}

/// Everything the proxy may do with one inbound request.
#[derive(Clone, Debug)]
pub enum RequestPlan {
    /// Answer locally, without touching the upstream.
    RespondLocally(SynthesizedResponse),
    /// Open a WebSocket session against this upstream URL.
    OpenWebSocket { upstream_url: String },
    /// Issue the planned upstream request and relay its outcome.
    ForwardRequest(ForwardPlan),
    /// Refuse the request with this synthesized answer.
    RejectRequest(SynthesizedResponse),
}

/// Decide one inbound request in full: the internal health path is
/// answered 200 locally, a WebSocket upgrade is opened against the
/// rewritten target, anything else is forwarded to the HTTPS upstream
/// or rejected with the maintenance page when the target is not HTTPS.
pub fn plan_request(
    path: &str,
    query: Option<&str>,
    upgrade_header: Option<&str>,
    target: &str,
    proxy_port: u16,
) -> (r: RequestPlan)
    ensures
        ({
            let q = match query {
                Some(q) => Some(q@),
                None => None,
            };
            let h = match upgrade_header {
                Some(h) => Some(h@),
                None => None,
            };
            let url = spec_forward_url(target@, path@, q);
            &&& (path@ == "/_health"@ ==> (r matches RequestPlan::RespondLocally(resp)
                && resp.status == 200 && resp.body@ == "OK"@))
            &&& (path@ != "/_health"@ && spec_is_ws_upgrade(h) ==> (r
                matches RequestPlan::OpenWebSocket { upstream_url } && upstream_url@
                == crate::ws::spec_ws_target(target@, path@, q)))
            &&& (path@ != "/_health"@ && !spec_is_ws_upgrade(h) && spec_starts_with(
                url,
                "https://"@,
            ) ==> (r matches RequestPlan::ForwardRequest(plan) && {
                &&& plan.url@ == url
                &&& (plan.host_header matches Some(hh) ==> Some(hh@) == spec_host_header(url))
                &&& (plan.host_header is None ==> spec_host_header(url) is None)
                &&& plan.forwarded_for@ == "127.0.0.1"@
                &&& plan.forwarded_proto@ == "http"@
                &&& plan.forwarded_host@ == "localhost:"@ + spec_dec_digits(proxy_port as nat)
                &&& plan.timeout_ms == 10000
            }))
            &&& (path@ != "/_health"@ && !spec_is_ws_upgrade(h) && !spec_starts_with(
                url,
                "https://"@,
            ) ==> (r matches RequestPlan::RejectRequest(resp) && resp.status == 500 && resp.body@
                == spec_maintenance_page("Invalid target URL scheme - must be HTTPS"@)))
        }),
{
    match classify_request(path, upgrade_header) {
        RequestClass::HealthCheck => RequestPlan::RespondLocally(
            SynthesizedResponse { status: 200, body: String::from_str(health_check_body()) },
        ),
        RequestClass::WebSocketUpgrade => RequestPlan::OpenWebSocket {
            upstream_url: crate::ws::ws_rewrite_target(target, path, query),
        },
        RequestClass::ForwardToUpstream => match plan_forward(target, path, query, proxy_port) {
            Ok(plan) => RequestPlan::ForwardRequest(plan),
            Err(resp) => RequestPlan::RejectRequest(resp),
        },
    }
}

/// A plain request against a non-HTTPS target is rejected with the
/// internal error page: for any target at least as long as the scheme
/// prefix, the resolved URL starts with `https://` only when the target
/// itself does, so `plan_forward` refuses it — no forward plan exists
/// and the 500 maintenance page carries the fixed error text. (A target
/// shorter than the prefix can be completed into `https://` by the
/// path, which is why the length bound is needed; the check runs on the
/// resolved URL.)
pub proof fn lemma_non_https_target_rejected(
    target: Seq<char>,
    path: Seq<char>,
    query: Option<Seq<char>>,
)
    requires
        target.len() >= 8,
        !spec_starts_with(target, "https://"@),
    ensures
        !spec_starts_with(spec_forward_url(target, path, query), "https://"@),
{
    reveal_strlit("https://");
    let prefix = "https://"@;
    let url = spec_forward_url(target, path, query);
    if spec_starts_with(url, prefix) {
        assert(url.subrange(0, 8) == prefix);
        assert(target.subrange(0, 8) =~= url.subrange(0, 8));
        assert(spec_starts_with(target, prefix));
    }
}

/// What came of the upstream request the plan described.
#[derive(Clone, Debug)]
pub enum UpstreamOutcome {
    /// The upstream answered with this status: relay it unchanged.
    Replied(u16),
    /// The transport failed with this error before an answer arrived.
    TransportFailed(String),
    /// The ten-second timeout elapsed.
    TimedOut,
}

/// What the proxy answers the client: a relayed status, or a
/// synthesized body.
#[derive(Clone, Debug)]
pub struct ProxyReply {
    pub status: u16,
    /// A synthesized body; relaying the upstream body unchanged when
    /// absent.
    pub synthesized_body: Option<String>,
}

/// Map the upstream outcome to the client's reply and the access-log
/// entry: success is relayed and logged with its status, a transport
/// failure becomes 500 with the maintenance page and the same error in
/// the log, a timeout becomes 504 likewise.
pub fn finish_forward(
    outcome: UpstreamOutcome,
    method: &str,
    path: &str,
    target: &str,
    duration_ms: u64,
) -> (r: (ProxyReply, AccessLogEntry))
    ensures
        r.1.method@ == method@,
        r.1.path@ == path@,
        r.1.target@ == target@,
        r.1.duration_ms == duration_ms,
        outcome matches UpstreamOutcome::Replied(status) ==> {
            &&& r.0.status == status
            &&& r.0.synthesized_body is None
            &&& r.1.status == status
            &&& r.1.error is None
        },
        outcome matches UpstreamOutcome::TransportFailed(e) ==> {
            &&& r.0.status == 500
            &&& r.0.synthesized_body matches Some(b) && b@ == spec_maintenance_page(e@)
            &&& r.1.status == 500
            &&& r.1.error matches Some(le) && le@ == e@
        },
        outcome is TimedOut ==> {
            &&& r.0.status == 504
            &&& r.0.synthesized_body matches Some(b) && b@ == spec_maintenance_page(
                "Request timed out"@,
            )
            &&& r.1.status == 504
            &&& r.1.error matches Some(le) && le@ == "Request timed out"@
        },
{
    match outcome {
        UpstreamOutcome::Replied(status) => {
            let entry = crate::access_log::make_entry(method, path, status, duration_ms, target, None);
            (ProxyReply { status, synthesized_body: None }, entry)
        },
        UpstreamOutcome::TransportFailed(e) => {
            let body = maintenance_page(e.as_str());
            let entry = crate::access_log::make_entry(
                method,
                path,
                500,
                duration_ms,
                target,
                Some(e),
            );
            (ProxyReply { status: 500, synthesized_body: Some(body) }, entry)
        },
        UpstreamOutcome::TimedOut => {
            let msg = String::from_str("Request timed out");
            let body = maintenance_page(msg.as_str());
            let entry = crate::access_log::make_entry(
                method,
                path,
                504,
                duration_ms,
                target,
                Some(msg),
            );
            (ProxyReply { status: 504, synthesized_body: Some(body) }, entry)
        },
    }
}

} // verus!
