use bb_control::api::{
    build_start_args, get_api_log_path, verify_api_requirements, ApiStartResult,
};
use bb_control::bui::verify_bui_requirements;
use bb_control::config::{
    update_config_value, ApiConfig, BuiConfig, CliConfig, DefaultModels, DuiConfig, GlobalConfig,
    LlmKeys, LlmProviderConfig, LlmProviders, TlsConfig,
};
use bb_control::config::{display_api_key, mask_api_key};
use bb_control::install::get_install_location;
use bb_control::oauth::OAuthResult;
use bb_control::paths::{
    check_windows_path_length, get_pid_file_path, is_absolute_path, locate_executable,
    resolve_log_path, runtime_dir_under,
};
use bb_control::pidfile::{format_pid, parse_pid, parse_pid_lines};
use bb_control::server_status::{check_server_status, plan_service_starts, reconcile_order, STATUS_CHECK_ATTEMPTS, STATUS_CHECK_INTERVAL_MS};
use bb_control::supervisor::{health_url, is_healthy_status, probe_needs_fallback, probe_scheme_order, probe_verdict, status_no_pid_file, status_with_probe, ServiceObservation, StartResult};
use bb_control::version::{clean_version_string, version_cache_fresh, VersionCache};

fn sample_config() -> GlobalConfig {
    GlobalConfig {
        version: String::from("2.2.0"),
        default_models: DefaultModels {
            orchestrator: String::from("m1"),
            agent: String::from("m2"),
            chat: String::from("m3"),
        },
        api: ApiConfig::default(),
        bui: BuiConfig::default(),
        cli: CliConfig::default(),
        dui: DuiConfig::default(),
    }
}

#[test]
fn pid_file_text_round_trips() {
    assert_eq!(parse_pid("123"), Some(123));
    assert_eq!(parse_pid(" 123\n"), Some(123));
    assert_eq!(parse_pid("-5"), Some(-5));
    assert_eq!(parse_pid("+7"), Some(7));
    assert_eq!(parse_pid("abc"), None);
    assert_eq!(parse_pid(""), None);
    assert_eq!(parse_pid("12 3"), None);
    assert_eq!(parse_pid("2147483647"), Some(2147483647));
    assert_eq!(parse_pid("2147483648"), None);
    assert_eq!(parse_pid("-2147483648"), Some(-2147483648));
    assert_eq!(parse_pid("99999999999999999999"), None);
    assert_eq!(format_pid(0), "0");
    assert_eq!(format_pid(40123), "40123");
    assert_eq!(format_pid(-17), "-17");
    assert_eq!(parse_pid(&format_pid(i32::MIN)), Some(i32::MIN));
}

#[test]
fn process_listing_parses_one_pid_per_clean_line() {
    assert_eq!(parse_pid_lines("123\n456\nnot-a-pid\n789\n"), vec![123, 456, 789]);
    assert_eq!(parse_pid_lines(""), Vec::<i32>::new());
    assert_eq!(parse_pid_lines(" 42 "), vec![42]);
}

#[test]
fn absolute_paths_are_recognised() {
    assert!(is_absolute_path("/var/log/api.log"));
    assert!(is_absolute_path("C:\\logs\\api.log"));
    assert!(!is_absolute_path("api.log"));
}

#[test]
fn log_path_resolution_rules() {
    let home = String::from("/home/u");
    let absolute = String::from("/var/log/api.log");
    let relative = String::from("api-alt.log");
    assert_eq!(
        resolve_log_path(Some(&home), Some(&absolute), "api.log").as_deref(),
        Some("/var/log/api.log")
    );
    assert_eq!(
        resolve_log_path(Some(&home), Some(&relative), "api.log").as_deref(),
        Some("/home/u/.bb/logs/api-alt.log")
    );
    assert_eq!(
        resolve_log_path(Some(&home), None, "api.log").as_deref(),
        Some("/home/u/.bb/logs/api.log")
    );
    assert_eq!(resolve_log_path(None, Some(&relative), "api.log"), None);
    assert_eq!(resolve_log_path(None, Some(&absolute), "api.log").as_deref(), Some("/var/log/api.log"));
}

#[test]
fn api_log_path_honours_an_absolute_override() {
    let mut config = ApiConfig::default();
    config.log_file = Some(String::from("/tmp/api-override.log"));
    assert_eq!(get_api_log_path(&config).as_deref(), Some("/tmp/api-override.log"));
}

#[test]
fn pid_file_paths_per_service() {
    let dir = runtime_dir_under("/home/u");
    assert_eq!(dir, "/home/u/.bb/run");
    assert_eq!(get_pid_file_path(&dir, "api").as_deref(), Ok("/home/u/.bb/run/api.pid"));
    assert_eq!(get_pid_file_path(&dir, "bui").as_deref(), Ok("/home/u/.bb/run/bui.pid"));
    match get_pid_file_path(&dir, "gui") {
        Err(e) => assert_eq!(e, "Invalid service name: gui"),
        Ok(_) => panic!("unknown services must be rejected"),
    }
}

#[test]
fn executable_search_prefers_the_user_install() {
    let home = String::from("/home/u");
    assert_eq!(
        locate_executable("bb-api", Some(&home), true, true),
        Ok(String::from("/home/u/.local/bin/bb-api"))
    );
    assert_eq!(
        locate_executable("bb-api", Some(&home), false, true),
        Ok(String::from("/usr/local/bin/bb-api"))
    );
    assert_eq!(
        locate_executable("bb-api", None, false, true),
        Ok(String::from("/usr/local/bin/bb-api"))
    );
    assert!(locate_executable("bb-api", Some(&home), false, false).is_err());
}

#[test]
fn requirement_checks_wrap_the_search_error() {
    assert!(verify_api_requirements(&Ok(String::from("/x/bb-api"))).is_ok());
    match verify_api_requirements(&Err(String::from("nowhere"))) {
        Err(e) => assert_eq!(e, "BB API binary not found: nowhere"),
        Ok(_) => panic!("a missing binary must fail the requirements"),
    }
    match verify_bui_requirements(&Err(String::from("nowhere"))) {
        Err(e) => assert_eq!(e, "BB BUI binary not found: nowhere"),
        Ok(_) => panic!("a missing binary must fail the requirements"),
    }
}

#[test]
fn start_args_follow_the_fixed_shape() {
    let args = build_start_args("localhost", 3162, false, "/home/u/.bb/logs/api.log");
    assert_eq!(
        args,
        vec![
            String::from("--hostname"),
            String::from("localhost"),
            String::from("--port"),
            String::from("3162"),
            String::from("--use-tls"),
            String::from("false"),
            String::from("--log-file"),
            String::from("/home/u/.bb/logs/api.log"),
        ]
    );
}

#[test]
fn start_result_names_carry_over() {
    let r = ApiStartResult::from_start(StartResult {
        success: true,
        pid: Some(4),
        error: None,
        requires_settings: false,
    });
    assert!(r.success);
    assert_eq!(r.pid, Some(4));
}

#[test]
fn server_readiness_goes_by_the_api() {
    let ready = check_server_status(status_with_probe(1, Ok(true)), status_no_pid_file());
    assert!(ready.all_services_ready);
    let not_ready = check_server_status(status_no_pid_file(), status_with_probe(2, Ok(true)));
    assert!(!not_ready.all_services_ready);
}

#[test]
fn reconciliation_walks_api_first() {
    assert_eq!(reconcile_order(), vec!["api", "bui"]);
}

#[test]
fn startup_starts_whatever_does_not_respond() {
    let both = check_server_status(status_with_probe(1, Ok(true)), status_with_probe(2, Ok(true)));
    assert_eq!(plan_service_starts(Some(&both)), (false, false));
    let api_only = check_server_status(status_with_probe(1, Ok(true)), status_no_pid_file());
    assert_eq!(plan_service_starts(Some(&api_only)), (false, true));
    assert_eq!(plan_service_starts(None), (true, true));
}

#[test]
fn config_defaults_are_localhost_without_tls() {
    let api = ApiConfig::default();
    assert_eq!(api.hostname, "localhost");
    assert_eq!(api.port, 3162);
    assert!(!api.tls.use_tls);
    let bui = BuiConfig::default();
    assert_eq!(bui.port, 8080);
    let tls = TlsConfig::default();
    assert!(tls.key_file.is_none());
    assert!(LlmProviders::default().anthropic.is_none());
    assert!(LlmProviderConfig::default().api_key.is_none());
    assert!(LlmKeys::default().anthropic.is_none());
    assert_eq!(CliConfig::default().history_size, 1000);
    let dui = DuiConfig::default();
    assert!(!dui.debug_mode);
    assert_eq!(dui.recent_projects, 5);
}

#[test]
fn config_update_accepts_only_known_keys() {
    let mut c = sample_config();
    assert!(update_config_value(&mut c, "api.tls.useTls", "true").is_ok());
    assert!(c.api.tls.use_tls);
    assert!(update_config_value(&mut c, "bui.localMode", "true").is_ok());
    assert!(c.bui.local_mode);
    assert!(update_config_value(&mut c, "api.logFile", "/tmp/x.log").is_ok());
    assert_eq!(c.api.log_file.as_deref(), Some("/tmp/x.log"));

    match update_config_value(&mut c, "api.port", "9999") {
        Err(e) => assert_eq!(e, "Unknown config key: api.port"),
        Ok(_) => panic!("unknown keys must be rejected"),
    }
    assert_eq!(c.api.port, 3162);
}

#[test]
fn config_update_rejects_bad_booleans_unchanged() {
    let mut c = sample_config();
    match update_config_value(&mut c, "api.tls.useTls", "yes") {
        Err(e) => assert_eq!(e, "Invalid boolean for useTls"),
        Ok(_) => panic!("a non-boolean must be rejected"),
    }
    assert!(!c.api.tls.use_tls);
}

#[test]
fn masked_provider_key_is_not_written_back() {
    let mut c = sample_config();
    assert!(update_config_value(
        &mut c,
        "api.llmProviders.anthropic.apiKey",
        "sk-ant-api03-abc..."
    )
    .is_ok());
    assert!(c.api.llm_providers.anthropic.is_none());
    assert!(update_config_value(&mut c, "api.llmProviders.anthropic.apiKey", "fresh-key").is_ok());
    assert_eq!(
        c.api.llm_providers.anthropic.unwrap().api_key.as_deref(),
        Some("fresh-key")
    );
}

#[test]
fn version_cleaning_keeps_digits_and_dots() {
    assert_eq!(clean_version_string("v1.2.3"), "1.2.3");
    assert_eq!(clean_version_string("\"0.8.13\";"), "0.8.13");
    assert_eq!(clean_version_string("nonsense"), "");
}

#[test]
fn version_cache_expires_after_its_ttl() {
    let cache = VersionCache { version: String::from("1.0.0"), fetched_at_ms: 1000 };
    assert!(version_cache_fresh(&cache, 1000));
    assert!(version_cache_fresh(&cache, 1000 + 3599999));
    assert!(!version_cache_fresh(&cache, 1000 + 3600000));
}

#[test]
fn windows_path_length_limit_is_enforced() {
    assert!(check_windows_path_length("C:\\Program Files\\x").is_ok());
    let long = "a".repeat(261);
    match check_windows_path_length(&long) {
        Err(e) => assert_eq!(e, "Installation path too long (Windows limit is 260 characters)"),
        Ok(_) => panic!("a long path must be rejected"),
    }
}

#[test]
fn install_location_prefers_the_user_directory() {
    let home = String::from("/home/u");
    let user = get_install_location(Some(&home), true, false);
    assert_eq!(user.path, "/home/u/.local/bin");
    assert!(user.writable);
    assert!(user.is_user_install);
    let system = get_install_location(Some(&home), false, true);
    assert_eq!(system.path, "/usr/local/bin");
    assert!(system.writable);
    assert!(!system.is_user_install);
    let system_ro = get_install_location(None, false, false);
    assert!(!system_ro.writable);
}

#[test]
fn oauth_results_carry_their_outcome() {
    let ok = OAuthResult::completed(
        String::from("anthropic"),
        None,
        String::from("code-1"),
        Some(String::from("state-1")),
    );
    assert!(ok.success);
    assert_eq!(ok.code.as_deref(), Some("code-1"));
    assert!(ok.error.is_none());
    let bad = OAuthResult::failed(String::from("anthropic"), String::from("window closed"));
    assert!(!bad.success);
    assert_eq!(bad.error.as_deref(), Some("window closed"));
}

#[test]
fn provider_keys_are_masked_for_display() {
    assert_eq!(mask_api_key("sk-ant-api03-XXXXXXXXYYYY"), "sk-ant-api03-XXXXX...");
    assert_eq!(mask_api_key("abc"), "abc...");

    let llm = LlmProviders {
        anthropic: Some(LlmProviderConfig { api_key: Some(String::from("sk-ant-api03-XXXXXXXXYYYY")) }),
    };
    assert_eq!(display_api_key(&llm).as_deref(), Some("sk-ant-api03-XXXXX..."));
    let empty = LlmProviders { anthropic: Some(LlmProviderConfig { api_key: Some(String::new()) }) };
    assert_eq!(display_api_key(&empty).as_deref(), Some(""));
    assert_eq!(display_api_key(&LlmProviders::default()), None);
}

#[test]
fn health_probe_urls_and_scheme_order() {
    assert_eq!(probe_scheme_order(true), ("https", "http"));
    assert_eq!(probe_scheme_order(false), ("http", "https"));
    assert_eq!(
        health_url("https", "localhost", 3162),
        "https://localhost:3162/api/v1/status"
    );
    assert!(is_healthy_status(200));
    assert!(is_healthy_status(299));
    assert!(!is_healthy_status(199));
    assert!(!is_healthy_status(301));
    assert!(!is_healthy_status(500));
}

#[test]
fn named_status_checks_mirror_the_shared_levels() {
    let api = bb_control::api::check_api_status(ServiceObservation::Probed {
        pid: 11,
        probe: Ok(true),
    });
    assert!(api.api_responds);
    assert!(api.process_responds);
    assert_eq!(api.pid, Some(11));

    let bui = bb_control::bui::check_bui_status(ServiceObservation::NoPidFile);
    assert!(!bui.bui_responds);
    assert!(!bui.pid_exists);
    assert!(bui.pid.is_none());
}

#[test]
fn startup_status_retry_bounds_are_fixed() {
    assert_eq!(STATUS_CHECK_ATTEMPTS, 3);
    assert_eq!(STATUS_CHECK_INTERVAL_MS, 500);
}

#[test]
fn probe_fold_matches_primary_then_fallback_rule() {
    assert!(!probe_needs_fallback(Some(204)));
    assert!(probe_needs_fallback(Some(404)));
    assert!(probe_needs_fallback(None));
    assert!(probe_verdict(Some(200), None));
    assert!(probe_verdict(Some(500), Some(204)));
    assert!(!probe_verdict(Some(500), Some(500)));
    assert!(!probe_verdict(None, None));
    assert!(!probe_verdict(Some(301), None));
}

#[test]
fn log_paths_land_under_the_default_directory() {
    let mut config = ApiConfig::default();
    config.log_file = Some(String::from("api-alt.log"));
    if let Some(p) = get_api_log_path(&config) {
        assert!(p.ends_with("/.bb/logs/api-alt.log"));
    }
    config.log_file = None;
    if let Some(p) = get_api_log_path(&config) {
        assert!(p.ends_with("/.bb/logs/api.log"));
    }
    if let Some(p) = bb_control::api::get_default_api_log_path() {
        assert!(p.ends_with("/.bb/logs/api.log"));
    }
    if let Some(p) = bb_control::bui::get_default_bui_log_path() {
        assert!(p.ends_with("/.bb/logs/bui.log"));
    }
}
