//! The typed configuration the control plane consumes: per-service
//! hostname, port, TLS flag and log file, plus the desktop flags, and
//! the closed set of keys a configuration update may touch. Reading and
//! writing the file on disk is the caller's side of the boundary; the
//! update rule itself is decided and specified here.

use vstd::prelude::*;

use crate::strutil::spec_parse_bool;
use crate::strutil::ends_with_str;
use crate::strutil::parse_bool;
use crate::strutil::str_eq;

verus! {

/// TLS settings of one service.
#[derive(Clone, Debug)]
pub struct TlsConfig {
    pub use_tls: bool,
    pub key_file: Option<String>,
    pub cert_file: Option<String>,
    pub root_ca_file: Option<String>,
    pub key_pem: Option<String>,
    pub cert_pem: Option<String>,
    pub root_ca_pem: Option<String>,
}

impl Default for TlsConfig {
    /// TLS off, no key or certificate material.
    fn default() -> (r: Self)
        ensures
            !r.use_tls,
            r.key_file is None,
            r.cert_file is None,
            r.root_ca_file is None,
            r.key_pem is None,
            r.cert_pem is None,
            r.root_ca_pem is None,
    {
        TlsConfig {
            use_tls: false,
            key_file: None,
            cert_file: None,
            root_ca_file: None,
            key_pem: None,
            cert_pem: None,
            root_ca_pem: None,
        }
    }
}

/// Credentials of one language-model provider.
#[derive(Clone, Debug)]
pub struct LlmProviderConfig {
    pub api_key: Option<String>,
}

impl Default for LlmProviderConfig {
    fn default() -> (r: Self)
        ensures
            r.api_key is None,
    {
        LlmProviderConfig { api_key: None }
    }
}

/// The configured language-model providers.
#[derive(Clone, Debug)]
pub struct LlmProviders {
    pub anthropic: Option<LlmProviderConfig>,
}

impl Default for LlmProviders {
    fn default() -> (r: Self)
        ensures
            r.anthropic is None,
    {
        LlmProviders { anthropic: None }
    }
}

/// Bare provider keys, as older configurations carried them.
#[derive(Clone, Debug)]
pub struct LlmKeys {
    pub anthropic: Option<String>,
}

impl Default for LlmKeys {
    fn default() -> (r: Self)
        ensures
            r.anthropic is None,
    {
        LlmKeys { anthropic: None }
    }
}

/// Configuration of the API service.
#[derive(Clone, Debug)]
pub struct ApiConfig {
    pub hostname: String,
    pub port: u16,
    pub tls: TlsConfig,
    pub log_file: Option<String>,
    pub local_mode: bool,
    pub llm_providers: LlmProviders,
}

impl Default for ApiConfig {
    /// Localhost on the API's default port, TLS off.
    fn default() -> (r: Self)
        ensures
            r.hostname@ == "localhost"@,
            r.port == 3162,
            !r.tls.use_tls,
            r.log_file is None,
            !r.local_mode,
            r.llm_providers.anthropic is None,
    {
        ApiConfig {
            hostname: String::from_str("localhost"),
            port: 3162,
            tls: TlsConfig::default(),
            log_file: None,
            local_mode: false,
            llm_providers: LlmProviders::default(),
        }
    }
}

/// Configuration of the BUI service.
#[derive(Clone, Debug)]
pub struct BuiConfig {
    pub hostname: String,
    pub port: u16,
    pub tls: TlsConfig,
    pub log_file: Option<String>,
    pub local_mode: bool,
}

impl Default for BuiConfig {
    /// Localhost on the BUI's default port, TLS off.
    fn default() -> (r: Self)
        ensures
            r.hostname@ == "localhost"@,
            r.port == 8080,
            !r.tls.use_tls,
            r.log_file is None,
            !r.local_mode,
    {
        BuiConfig {
            hostname: String::from_str("localhost"),
            port: 8080,
            tls: TlsConfig::default(),
            log_file: None,
            local_mode: false,
        }
    }
}

/// Configuration of the desktop shell itself.
#[derive(Clone, Debug)]
pub struct DuiConfig {
    pub debug_mode: bool,
    pub projects_directory: String,
    pub recent_projects: u32,
}

impl Default for DuiConfig {
    fn default() -> (r: Self)
        ensures
            !r.debug_mode,
            r.projects_directory@ == "./projects"@,
            r.recent_projects == 5,
    {
        DuiConfig {
            debug_mode: false,
            projects_directory: String::from_str("./projects"),
            recent_projects: 5,
        }
    }
}

/// Configuration of the command-line client.
#[derive(Clone, Debug)]
pub struct CliConfig {
    pub environment: Option<String>,
    pub default_editor: Option<String>,
    pub history_size: u32,
}

impl Default for CliConfig {
    fn default() -> (r: Self)
        ensures
            r.environment is None,
            r.default_editor is None,
            r.history_size == 1000,
    {
        CliConfig { environment: None, default_editor: None, history_size: 1000 }
    }
}

/// The model names the conversation roles default to.
#[derive(Clone, Debug)]
pub struct DefaultModels {
    pub orchestrator: String,
    pub agent: String,
    pub chat: String,
}

/// The whole configuration record the application reads.
#[derive(Clone, Debug)]
pub struct GlobalConfig {
    pub version: String,
    pub default_models: DefaultModels,
    pub api: ApiConfig,
    pub bui: BuiConfig,
    pub cli: CliConfig,
    pub dui: DuiConfig,
}

/// Everything outside the API section is untouched.
pub open spec fn same_except_api(a: GlobalConfig, b: GlobalConfig) -> bool {
    &&& b.version == a.version
    &&& b.default_models == a.default_models
    &&& b.bui == a.bui
    &&& b.cli == a.cli
    &&& b.dui == a.dui
}

/// Everything outside the BUI section is untouched.
pub open spec fn same_except_bui(a: GlobalConfig, b: GlobalConfig) -> bool {
    &&& b.version == a.version
    &&& b.default_models == a.default_models
    &&& b.api == a.api
    &&& b.cli == a.cli
    &&& b.dui == a.dui
}

/// The API section with only its log file possibly different.
pub open spec fn api_same_except_log_file(a: ApiConfig, b: ApiConfig) -> bool {
    &&& b.hostname == a.hostname
    &&& b.port == a.port
    &&& b.tls == a.tls
    &&& b.local_mode == a.local_mode
    &&& b.llm_providers == a.llm_providers
}

/// The API section with only its provider keys possibly different.
pub open spec fn api_same_except_llm(a: ApiConfig, b: ApiConfig) -> bool {
    &&& b.hostname == a.hostname
    &&& b.port == a.port
    &&& b.tls == a.tls
    &&& b.local_mode == a.local_mode
    &&& b.log_file == a.log_file
}

/// The BUI section with only its log file possibly different.
pub open spec fn bui_same_except_log_file(a: BuiConfig, b: BuiConfig) -> bool {
    &&& b.hostname == a.hostname
    &&& b.port == a.port
    &&& b.tls == a.tls
    &&& b.local_mode == a.local_mode
}

/// `c` with the API TLS flag set to `v`.
pub open spec fn with_api_use_tls(c: GlobalConfig, v: bool) -> GlobalConfig {
    GlobalConfig {
        api: ApiConfig {
            tls: TlsConfig { use_tls: v, ..c.api.tls },
            ..c.api
        },
        ..c
    }
}

/// `c` with the API local-mode flag set to `v`.
pub open spec fn with_api_local_mode(c: GlobalConfig, v: bool) -> GlobalConfig {
    GlobalConfig { api: ApiConfig { local_mode: v, ..c.api }, ..c }
}

/// `c` with the BUI TLS flag set to `v`.
pub open spec fn with_bui_use_tls(c: GlobalConfig, v: bool) -> GlobalConfig {
    GlobalConfig {
        bui: BuiConfig {
            tls: TlsConfig { use_tls: v, ..c.bui.tls },
            ..c.bui
        },
        ..c
    }
}

/// `c` with the BUI local-mode flag set to `v`.
pub open spec fn with_bui_local_mode(c: GlobalConfig, v: bool) -> GlobalConfig {
    GlobalConfig { bui: BuiConfig { local_mode: v, ..c.bui }, ..c }
}

/// How many characters of a provider key the masked echo shows.
pub const MASK_KEY_VISIBLE_CHARS: usize = 18;

/// The masked echo of a provider key: its first characters — at most
/// `MASK_KEY_VISIBLE_CHARS` — followed by "...".
pub open spec fn spec_mask_key(k: Seq<char>) -> Seq<char> {
    k.subrange(
        0,
        if k.len() < MASK_KEY_VISIBLE_CHARS {
            k.len() as int
        } else {
            MASK_KEY_VISIBLE_CHARS as int
        },
    ) + "..."@
}

/// Mask a provider key for display.
pub fn mask_api_key(key: &str) -> (r: String)
    ensures
        r@ == spec_mask_key(key@),
{
    let len = key.unicode_len();
    let cut = if len < MASK_KEY_VISIBLE_CHARS {
        len
    } else {
        MASK_KEY_VISIBLE_CHARS
    };
    let prefix = key.substring_char(0, cut);
    let mut out = String::from_str(prefix);
    out.append("...");
    out
}

/// The provider key as shown to the frontend: a present, non-empty key
/// is masked; an empty or absent key is shown as it stands.
pub fn display_api_key(llm: &LlmProviders) -> (r: Option<String>)
    ensures
        llm.anthropic is None ==> r is None,
        llm.anthropic matches Some(p) ==> match p.api_key {
            None => r is None,
            Some(k) => if k@.len() == 0 {
                r matches Some(shown) && shown@ == k@
            } else {
                r matches Some(shown) && shown@ == spec_mask_key(k@)
            },
        },
{
    match &llm.anthropic {
        None => None,
        Some(p) => match &p.api_key {
            None => None,
            Some(k) => {
                if k.as_str().unicode_len() == 0 {
                    Some(k.clone())
                } else {
                    Some(mask_api_key(k.as_str()))
                }
            },
        },
    }
}

/// The update keys are pairwise distinct strings: same-length pairs
/// differ in their first character, all other pairs in length.
proof fn lemma_config_keys_distinct()
    ensures
        "api.logFile"@.len() == 11,
        "bui.logFile"@.len() == 11,
        "api.tls.useTls"@.len() == 14,
        "bui.tls.useTls"@.len() == 14,
        "api.localMode"@.len() == 13,
        "bui.localMode"@.len() == 13,
        "api.llmProviders.anthropic.apiKey"@.len() == 33,
        "api.logFile"@ != "bui.logFile"@,
        "api.tls.useTls"@ != "bui.tls.useTls"@,
        "api.localMode"@ != "bui.localMode"@,
{
    reveal_strlit("api.logFile");
    reveal_strlit("bui.logFile");
    reveal_strlit("api.tls.useTls");
    reveal_strlit("bui.tls.useTls");
    reveal_strlit("api.localMode");
    reveal_strlit("bui.localMode");
    reveal_strlit("api.llmProviders.anthropic.apiKey");
    assert("api.logFile"@[0] == 'a');
    assert("bui.logFile"@[0] == 'b');
    assert("api.tls.useTls"@[0] == 'a');
    assert("bui.tls.useTls"@[0] == 'b');
    assert("api.localMode"@[0] == 'a');
    assert("bui.localMode"@[0] == 'b');
}

/// Apply one configuration update, addressed by its dotted key, to the
/// typed record. The keys form a closed set; an unknown key is rejected
/// and changes nothing. The boolean keys reject anything but "true" and
/// "false". A provider key whose value ends in "..." is a masked echo
/// and is deliberately not written back.
pub fn update_config_value(config: &mut GlobalConfig, key: &str, value: &str) -> (r: Result<
    (),
    String,
>)
    ensures
        key@ == "api.logFile"@ ==> r is Ok && (final(config).api.log_file matches Some(lf) && lf@
            == value@) && api_same_except_log_file(old(config).api, final(config).api)
            && same_except_api(*old(config), *final(config)),
        key@ == "bui.logFile"@ ==> r is Ok && (final(config).bui.log_file matches Some(lf) && lf@
            == value@) && bui_same_except_log_file(old(config).bui, final(config).bui)
            && same_except_bui(*old(config), *final(config)),
        key@ == "api.tls.useTls"@ ==> match spec_parse_bool(value@) {
            Some(v) => r is Ok && *final(config) == with_api_use_tls(*old(config), v),
            None => (r matches Err(e) && e@ == "Invalid boolean for useTls"@) && *final(config)
                == *old(config),
        },
        key@ == "bui.tls.useTls"@ ==> match spec_parse_bool(value@) {
            Some(v) => r is Ok && *final(config) == with_bui_use_tls(*old(config), v),
            None => (r matches Err(e) && e@ == "Invalid boolean for useTls"@) && *final(config)
                == *old(config),
        },
        key@ == "api.localMode"@ ==> match spec_parse_bool(value@) {
            Some(v) => r is Ok && *final(config) == with_api_local_mode(*old(config), v),
            None => (r matches Err(e) && e@ == "Invalid boolean for localMode"@) && *final(config)
                == *old(config),
        },
        key@ == "bui.localMode"@ ==> match spec_parse_bool(value@) {
            Some(v) => r is Ok && *final(config) == with_bui_local_mode(*old(config), v),
            None => (r matches Err(e) && e@ == "Invalid boolean for localMode"@) && *final(config)
                == *old(config),
        },
        key@ == "api.llmProviders.anthropic.apiKey"@ ==> r is Ok && if crate::strutil::spec_ends_with(
            value@,
            "..."@,
        ) {
            *final(config) == *old(config)
        } else {
            (final(config).api.llm_providers.anthropic matches Some(p) && p.api_key matches Some(k2)
                && k2@ == value@) && api_same_except_llm(old(config).api, final(config).api)
                && same_except_api(*old(config), *final(config))
        },
        !(key@ == "api.logFile"@ || key@ == "bui.logFile"@ || key@ == "api.tls.useTls"@ || key@
            == "bui.tls.useTls"@ || key@ == "api.localMode"@ || key@ == "bui.localMode"@ || key@
            == "api.llmProviders.anthropic.apiKey"@) ==> (r matches Err(e) && e@
            == "Unknown config key: "@ + key@) && *final(config) == *old(config),
{
    proof {
        lemma_config_keys_distinct();
    }
    if str_eq(key, "api.logFile") {
        config.api.log_file = Some(String::from_str(value));
        Ok(())
    } else if str_eq(key, "bui.logFile") {
        config.bui.log_file = Some(String::from_str(value));
        Ok(())
    } else if str_eq(key, "api.tls.useTls") {
        match parse_bool(value) {
            Some(v) => {
                config.api.tls.use_tls = v;
                Ok(())
            },
            None => Err(String::from_str("Invalid boolean for useTls")),
        }
    } else if str_eq(key, "bui.tls.useTls") {
        match parse_bool(value) {
            Some(v) => {
                config.bui.tls.use_tls = v;
                Ok(())
            },
            None => Err(String::from_str("Invalid boolean for useTls")),
        }
    } else if str_eq(key, "api.localMode") {
        match parse_bool(value) {
            Some(v) => {
                config.api.local_mode = v;
                Ok(())
            },
            None => Err(String::from_str("Invalid boolean for localMode")),
        }
    } else if str_eq(key, "bui.localMode") {
        match parse_bool(value) {
            Some(v) => {
                config.bui.local_mode = v;
                Ok(())
            },
            None => Err(String::from_str("Invalid boolean for localMode")),
        }
    } else if str_eq(key, "api.llmProviders.anthropic.apiKey") {
        if !ends_with_str(value, "...") {
            config.api.llm_providers.anthropic = Some(
                LlmProviderConfig { api_key: Some(String::from_str(value)) },
            );
        }
        Ok(())
    } else {
        let mut e = String::from_str("Unknown config key: ");
        e.append(key);
        Err(e)
    }
}

} // verus!
