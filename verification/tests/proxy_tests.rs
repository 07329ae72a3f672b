use bb_control::access_log::{format_entry, make_entry, should_log, AccessLogger};
use bb_control::proxy::{
    build_forward_url, choose_port, classify_request, fallback_ports, finish_forward,
    health_check_body, health_check_path, maintenance_page, plan_forward, plan_request,
    proxy_needed, strip_host_header, ProxyInitError, ProxyState, RequestClass, RequestPlan,
    UpstreamOutcome,
};

fn all_free() -> Vec<bool> {
    vec![true; 10]
}

#[test]
fn fallback_ports_are_the_fixed_ordered_list() {
    let ports = fallback_ports();
    assert_eq!(
        ports,
        vec![45000, 45001, 45002, 45003, 45004, 45005, 45006, 45007, 45008, 45009]
    );
}

#[test]
fn lowest_numbered_free_port_is_picked() {
    let mut avail = vec![false; 10];
    avail[2] = true;
    avail[7] = true;
    assert_eq!(choose_port(&avail), Some(45002));
    assert_eq!(choose_port(&all_free()), Some(45000));
}

#[test]
fn no_free_port_is_a_distinct_construction_failure() {
    let avail = vec![false; 10];
    assert_eq!(choose_port(&avail), None);
    match ProxyState::construct(&avail, false) {
        Err(ProxyInitError::NoPortAvailable) => {},
        _ => panic!("construction must fail with the no-port condition"),
    }
}

#[test]
fn construction_starts_stopped_on_the_default_target() {
    let p = ProxyState::construct(&all_free(), true).unwrap();
    assert_eq!(p.port, 45000);
    assert_eq!(p.target_url, "https://chat.beyondbetter.dev");
    assert!(p.debug_mode);
    assert!(!p.running);
    let info = p.info();
    assert_eq!(info.port, 45000);
    assert_eq!(info.target, "https://chat.beyondbetter.dev");
    assert!(!info.is_running);
}

#[test]
fn start_and_stop_are_idempotent() {
    let mut p = ProxyState::construct(&all_free(), false).unwrap();
    p.start();
    assert!(p.running);
    p.start();
    assert!(p.running);
    p.stop();
    assert!(!p.running);
    p.stop();
    assert!(!p.running);
}

#[test]
fn set_debug_mode_toggles_only_the_flag() {
    let mut p = ProxyState::construct(&all_free(), false).unwrap();
    p.set_debug_mode(true);
    assert!(p.debug_mode);
    assert_eq!(p.port, 45000);
    p.set_debug_mode(false);
    assert!(!p.debug_mode);
}

#[test]
fn non_https_target_is_rejected_and_previous_target_kept() {
    let mut p = ProxyState::construct(&all_free(), false).unwrap();
    let before = p.target_url.clone();
    assert!(p.set_target("http://insecure.example.com").is_err());
    assert_eq!(p.target_url, before);
    assert!(p.set_target("ftp://example.com").is_err());
    assert_eq!(p.target_url, before);
    assert!(p.set_target("not a url at all").is_err());
    assert_eq!(p.target_url, before);
}

#[test]
fn https_target_is_accepted() {
    let mut p = ProxyState::construct(&all_free(), false).unwrap();
    assert!(p.set_target("https://other.example.com").is_ok());
    assert_eq!(p.target_url, "https://other.example.com");
}

#[test]
fn health_path_is_answered_locally() {
    assert_eq!(health_check_path(), "/_health");
    assert_eq!(health_check_body(), "OK");
    let c = classify_request("/_health", None);
    assert_eq!(c, RequestClass::HealthCheck);
    let c = classify_request("/_health", Some("websocket"));
    assert_eq!(c, RequestClass::HealthCheck);
}

#[test]
fn websocket_upgrade_is_detected_case_insensitively() {
    assert_eq!(
        classify_request("/chat", Some("WebSocket")),
        RequestClass::WebSocketUpgrade
    );
    assert_eq!(
        classify_request("/chat", Some("Upgrade, WEBSOCKET")),
        RequestClass::WebSocketUpgrade
    );
    assert_eq!(
        classify_request("/chat", Some("h2c")),
        RequestClass::ForwardToUpstream
    );
    assert_eq!(classify_request("/chat", None), RequestClass::ForwardToUpstream);
}

#[test]
fn forward_url_concatenates_path_and_query() {
    assert_eq!(
        build_forward_url("https://t.example", "/a/b", Some("x=1&y=2")),
        "https://t.example/a/b?x=1&y=2"
    );
    assert_eq!(build_forward_url("https://t.example", "/a/b", None), "https://t.example/a/b");
}

#[test]
fn plain_request_to_non_https_target_is_rejected_with_internal_error() {
    let r = plan_forward("http://t.example", "/a", None, 45000);
    match r {
        Err(resp) => {
            assert_eq!(resp.status, 500);
            assert!(resp.body.contains("Invalid target URL scheme - must be HTTPS"));
        },
        Ok(_) => panic!("a non-HTTPS target must be rejected"),
    }
}

#[test]
fn forward_plan_fixes_headers_and_timeout() {
    let plan = plan_forward("https://t.example", "/a", Some("q=1"), 45003).unwrap();
    assert_eq!(plan.url, "https://t.example/a?q=1");
    assert_eq!(plan.host_header.as_deref(), Some("t.example"));
    assert_eq!(plan.forwarded_for, "127.0.0.1");
    assert_eq!(plan.forwarded_proto, "http");
    assert_eq!(plan.forwarded_host, "localhost:45003");
    assert_eq!(plan.timeout_ms, 10000);
}

#[test]
fn host_header_keeps_an_explicit_port() {
    let plan = plan_forward("https://t.example:8443", "/", None, 45000).unwrap();
    assert_eq!(plan.host_header.as_deref(), Some("t.example:8443"));
}

#[test]
fn maintenance_page_embeds_the_error_text() {
    let page = maintenance_page("connection refused");
    assert!(page.contains("Error: connection refused"));
}

#[test]
fn upstream_success_is_relayed_and_logged() {
    let (reply, entry) = finish_forward(
        UpstreamOutcome::Replied(204),
        "GET",
        "/a",
        "https://t.example",
        12,
    );
    assert_eq!(reply.status, 204);
    assert!(reply.synthesized_body.is_none());
    assert_eq!(entry.status, 204);
    assert!(entry.error.is_none());
    assert_eq!(entry.method, "GET");
    assert_eq!(entry.path, "/a");
    assert_eq!(entry.target, "https://t.example");
    assert_eq!(entry.duration_ms, 12);
}

#[test]
fn unreachable_target_yields_500_page_and_matching_log_error() {
    let (reply, entry) = finish_forward(
        UpstreamOutcome::TransportFailed(String::from("connect error: refused")),
        "GET",
        "/a",
        "https://t.example",
        31,
    );
    assert_eq!(reply.status, 500);
    let body = reply.synthesized_body.unwrap();
    assert!(body.contains("connect error: refused"));
    assert_eq!(entry.status, 500);
    assert_eq!(entry.error.as_deref(), Some("connect error: refused"));
}

#[test]
fn timeout_yields_504_with_the_fixed_message() {
    let (reply, entry) = finish_forward(
        UpstreamOutcome::TimedOut,
        "POST",
        "/b",
        "https://t.example",
        10000,
    );
    assert_eq!(reply.status, 504);
    assert!(reply.synthesized_body.unwrap().contains("Request timed out"));
    assert_eq!(entry.error.as_deref(), Some("Request timed out"));
}

#[test]
fn access_log_keeps_failures_and_debug_traffic_only() {
    let quiet = make_entry("GET", "/a", 200, 3, "https://t.example", None);
    assert!(!should_log(false, &quiet));
    assert!(should_log(true, &quiet));

    let failing = make_entry("GET", "/a", 404, 3, "https://t.example", None);
    assert!(should_log(false, &failing));

    let errored = make_entry("GET", "/a", 200, 3, "https://t.example", Some(String::from("boom")));
    assert!(should_log(false, &errored));
}

#[test]
fn access_log_line_format() {
    let e = make_entry("GET", "/a/b", 502, 140, "https://t.example", None);
    assert_eq!(format_entry(&e), "GET /a/b 502 140ms -> https://t.example");
    let e = make_entry("GET", "/a", 500, 7, "https://t.example", Some(String::from("refused")));
    assert_eq!(format_entry(&e), "GET /a 500 7ms -> https://t.example (refused)");
}

#[test]
fn logger_emits_exactly_per_policy() {
    let logger = AccessLogger::new(false);
    let quiet = make_entry("GET", "/a", 200, 3, "https://t.example", None);
    assert!(logger.log_request(&quiet).is_none());
    let failing = make_entry("GET", "/a", 500, 3, "https://t.example", Some(String::from("x")));
    let line = logger.log_request(&failing).unwrap();
    assert_eq!(line, "GET /a 500 3ms -> https://t.example (x)");
}

#[test]
fn proxy_is_needed_only_without_direct_tls() {
    assert!(proxy_needed(false));
    assert!(!proxy_needed(true));
}

#[test]
fn inbound_host_header_is_dropped_and_order_kept() {
    let headers = vec![
        (String::from("accept"), String::from("*/*")),
        (String::from("host"), String::from("localhost:45000")),
        (String::from("x-custom"), String::from("1")),
    ];
    let kept = strip_host_header(&headers);
    assert_eq!(
        kept,
        vec![
            (String::from("accept"), String::from("*/*")),
            (String::from("x-custom"), String::from("1")),
        ]
    );
}

#[test]
fn request_planning_dispatches_all_four_ways() {
    let health = plan_request("/_health", None, None, "https://t.example", 45000);
    match health {
        RequestPlan::RespondLocally(resp) => {
            assert_eq!(resp.status, 200);
            assert_eq!(resp.body, "OK");
        },
        _ => panic!("the health path must be answered locally"),
    }
    let ws = plan_request("/sock", Some("v=1"), Some("WebSocket"), "https://t.example", 45000);
    match ws {
        RequestPlan::OpenWebSocket { upstream_url } => {
            assert_eq!(upstream_url, "wss://t.example/sock?v=1");
        },
        _ => panic!("an upgrade must open a WebSocket"),
    }
    let fwd = plan_request("/a", None, Some("h2c"), "https://t.example", 45000);
    match fwd {
        RequestPlan::ForwardRequest(plan) => assert_eq!(plan.url, "https://t.example/a"),
        _ => panic!("a plain request must be forwarded"),
    }
    let rejected = plan_request("/a", None, None, "http://t.example", 45000);
    match rejected {
        RequestPlan::RejectRequest(resp) => assert_eq!(resp.status, 500),
        _ => panic!("a non-HTTPS target must be rejected"),
    }
}
