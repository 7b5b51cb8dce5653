//! Configuration model for the platform: defaults, environment overrides and
//! the choice of configuration file.
use crate::parse::{parse_bool, parse_unsigned, parse_unsigned_spec};
use crate::text::owned;
use vstd::prelude::*;
use vstd::string::*;

verus! {

#[derive(Debug, Clone)]
pub struct Config {
    pub server: ServerConfig,
    pub browser: BrowserConfig,
}

#[derive(Debug, Clone)]
pub struct ServerConfig {
    pub port: u16,
    pub admin_port: u16,
    pub host: String,
    pub log_level: String,
    pub timeout_ms: u64,
    pub max_input_size: usize,
    pub max_output_size: usize,
    pub auth: AuthConfig,
    pub rate_limit: RateLimitConfig,
    pub circuit_breaker: CircuitBreakerConfig,
    pub metrics: MetricsConfig,
}

#[derive(Debug, Clone)]
pub struct AuthConfig {
    pub enabled: bool,
    pub api_keys: Vec<ApiKeyEntry>,
    pub header_name: String,
}

#[derive(Debug, Clone)]
pub struct ApiKeyEntry {
    pub key: String,
    pub label: String,
    pub rate_limit: Option<u32>,
}

#[derive(Debug, Clone, Copy)]
pub struct RateLimitConfig {
    pub enabled: bool,
    pub requests_per_second: u32,
    pub burst_size: u32,
}

#[derive(Debug, Clone, Copy)]
pub struct CircuitBreakerConfig {
    pub enabled: bool,
    pub failure_threshold: u32,
    pub reset_timeout_secs: u64,
}

#[derive(Debug, Clone, Copy)]
pub struct MetricsConfig {
    pub enabled: bool,
    pub export_endpoint: bool,
}

/// Browser pool settings; `engine_urls` maps an engine name to the script
/// URL it loads, no name twice.
#[derive(Debug, Clone)]
pub struct BrowserConfig {
    pub pool_size: usize,
    pub context_ttl_requests: usize,
    pub engine_urls: Vec<(String, String)>,
}

pub fn default_port() -> (r: u16)
    ensures
        r == 8000,
{
    8000
}

pub fn default_admin_port() -> (r: u16)
    ensures
        r == 8081,
{
    8081
}

pub fn default_host() -> (r: String)
    ensures
        r@ == "127.0.0.1"@,
{
    owned("127.0.0.1")
}

pub fn default_log_level() -> (r: String)
    ensures
        r@ == "info"@,
{
    owned("info")
}

pub fn default_timeout_ms() -> (r: u64)
    ensures
        r == 5000,
{
    5_000
}

pub fn default_max_input_size() -> (r: usize)
    ensures
        r == 1048576,
{
    1_048_576
}

pub fn default_max_output_size() -> (r: usize)
    ensures
        r == 52428800,
{
    52_428_800
}

pub fn default_auth_header() -> (r: String)
    ensures
        r@ == "X-API-Key"@,
{
    owned("X-API-Key")
}

pub fn default_requests_per_second() -> (r: u32)
    ensures
        r == 100,
{
    100
}

pub fn default_burst_size() -> (r: u32)
    ensures
        r == 10,
{
    10
}

pub fn default_failure_threshold() -> (r: u32)
    ensures
        r == 5,
{
    5
}

pub fn default_reset_timeout_secs() -> (r: u64)
    ensures
        r == 60,
{
    60
}

pub fn default_metrics_enabled() -> (r: bool)
    ensures
        r,
{
    true
}

pub fn default_metrics_export_endpoint() -> (r: bool)
    ensures
        r,
{
    true
}

pub fn default_pool_size() -> (r: usize)
    ensures
        r == 4,
{
    4
}

pub fn default_context_ttl_requests() -> (r: usize)
    ensures
        r == 100,
{
    100
}

/// The script URL of the Mermaid engine.
pub open spec fn mermaid_engine_url() -> Seq<char> {
    "https://cdn.jsdelivr.net/npm/mermaid@10/dist/mermaid.min.js"@
}

/// The script URL of the BPMN engine.
pub open spec fn bpmn_engine_url() -> Seq<char> {
    "https://unpkg.com/bpmn-js@17/dist/bpmn-viewer.development.js"@
}

pub fn default_engine_urls() -> (r: Vec<(String, String)>)
    ensures
        r@.len() == 2,
        r@[0].0@ == "mermaid"@,
        r@[0].1@ == mermaid_engine_url(),
        r@[1].0@ == "bpmn"@,
        r@[1].1@ == bpmn_engine_url(),
{
    let mut map: Vec<(String, String)> = Vec::new();
    map.push(
        (owned("mermaid"), owned("https://cdn.jsdelivr.net/npm/mermaid@10/dist/mermaid.min.js")),
    );
    map.push(
        (owned("bpmn"), owned("https://unpkg.com/bpmn-js@17/dist/bpmn-viewer.development.js")),
    );
    map
}

impl Default for AuthConfig {
    /// Authentication off, no keys, and an empty header name (the named
    /// header default applies to configuration files only).
    fn default() -> (r: Self)
        ensures
            !r.enabled,
            r.api_keys@.len() == 0,
            r.header_name@.len() == 0,
    {
        AuthConfig { enabled: false, api_keys: Vec::new(), header_name: String::new() }
    }
}

impl Default for RateLimitConfig {
    fn default() -> (r: Self)
        ensures
            !r.enabled,
            r.requests_per_second == 100,
            r.burst_size == 10,
    {
        RateLimitConfig {
            enabled: false,
            requests_per_second: default_requests_per_second(),
            burst_size: default_burst_size(),
        }
    }
}

impl Default for CircuitBreakerConfig {
    fn default() -> (r: Self)
        ensures
            !r.enabled,
            r.failure_threshold == 5,
            r.reset_timeout_secs == 60,
    {
        CircuitBreakerConfig {
            enabled: false,
            failure_threshold: default_failure_threshold(),
            reset_timeout_secs: default_reset_timeout_secs(),
        }
    }
}

impl Default for MetricsConfig {
    fn default() -> (r: Self)
        ensures
            r.enabled,
            r.export_endpoint,
    {
        MetricsConfig {
            enabled: default_metrics_enabled(),
            export_endpoint: default_metrics_export_endpoint(),
        }
    }
}

impl Default for BrowserConfig {
    fn default() -> (r: Self)
        ensures
            r.pool_size == 4,
            r.context_ttl_requests == 100,
            r.engine_urls@.len() == 2,
            r.engine_urls@[0].0@ == "mermaid"@,
            r.engine_urls@[0].1@ == mermaid_engine_url(),
            r.engine_urls@[1].0@ == "bpmn"@,
            r.engine_urls@[1].1@ == bpmn_engine_url(),
    {
        BrowserConfig {
            pool_size: default_pool_size(),
            context_ttl_requests: default_context_ttl_requests(),
            engine_urls: default_engine_urls(),
        }
    }
}

/// The values of a server configuration with nothing set.
pub open spec fn is_default_server(s: ServerConfig) -> bool {
    &&& s.port == 8000
    &&& s.admin_port == 8081
    &&& s.host@ == "127.0.0.1"@
    &&& s.log_level@ == "info"@
    &&& s.timeout_ms == 5000
    &&& s.max_input_size == 1048576
    &&& s.max_output_size == 52428800
    &&& !s.auth.enabled
    &&& s.auth.api_keys@.len() == 0
    &&& s.auth.header_name@.len() == 0
    &&& !s.rate_limit.enabled
    &&& s.rate_limit.requests_per_second == 100
    &&& s.rate_limit.burst_size == 10
    &&& !s.circuit_breaker.enabled
    &&& s.circuit_breaker.failure_threshold == 5
    &&& s.circuit_breaker.reset_timeout_secs == 60
    &&& s.metrics.enabled
    &&& s.metrics.export_endpoint
}

impl Default for ServerConfig {
    fn default() -> (r: Self)
        ensures
            is_default_server(r),
    {
        ServerConfig {
            port: default_port(),
            admin_port: default_admin_port(),
            host: default_host(),
            log_level: default_log_level(),
            timeout_ms: default_timeout_ms(),
            max_input_size: default_max_input_size(),
            max_output_size: default_max_output_size(),
            auth: AuthConfig::default(),
            rate_limit: RateLimitConfig::default(),
            circuit_breaker: CircuitBreakerConfig::default(),
            metrics: MetricsConfig::default(),
        }
    }
}

impl Default for Config {
    fn default() -> (r: Self)
        ensures
            is_default_server(r.server),
            r.browser.pool_size == 4,
            r.browser.context_ttl_requests == 100,
            r.browser.engine_urls@.len() == 2,
            r.browser.engine_urls@[0].0@ == "mermaid"@,
            r.browser.engine_urls@[0].1@ == mermaid_engine_url(),
            r.browser.engine_urls@[1].0@ == "bpmn"@,
            r.browser.engine_urls@[1].1@ == bpmn_engine_url(),
    {
        Config { server: ServerConfig::default(), browser: BrowserConfig::default() }
    }
}

/// The configuration-relevant environment variables, as read (`None` when
/// unset or not valid Unicode).
#[derive(Debug, Clone, Default)]
pub struct EnvOverrides {
    /// `KROKI_SERVER_HOST`
    pub server_host: Option<String>,
    /// `KROKI_SERVER_PORT`
    pub server_port: Option<String>,
    /// `KROKI_SERVER_ADMIN_PORT`
    pub server_admin_port: Option<String>,
    /// `KROKI_SERVER_TIMEOUT_MS`
    pub server_timeout_ms: Option<String>,
    /// `KROKI_SERVER_MAX_INPUT_SIZE`
    pub server_max_input_size: Option<String>,
    /// `KROKI_SERVER_MAX_OUTPUT_SIZE`
    pub server_max_output_size: Option<String>,
    /// `KROKI_SERVER_AUTH_ENABLED`
    pub auth_enabled: Option<String>,
    /// `KROKI_SERVER_AUTH_HEADER`
    pub auth_header: Option<String>,
    /// `KROKI_SERVER_RATE_LIMIT_ENABLED`
    pub rate_limit_enabled: Option<String>,
    /// `KROKI_SERVER_RATE_LIMIT_RPS`
    pub rate_limit_rps: Option<String>,
    /// `KROKI_SERVER_RATE_LIMIT_BURST`
    pub rate_limit_burst: Option<String>,
    /// `KROKI_SERVER_CIRCUIT_BREAKER_ENABLED`
    pub circuit_breaker_enabled: Option<String>,
    /// `KROKI_SERVER_CIRCUIT_BREAKER_THRESHOLD`
    pub circuit_breaker_threshold: Option<String>,
    /// `KROKI_SERVER_CIRCUIT_BREAKER_RESET_SECS`
    pub circuit_breaker_reset_secs: Option<String>,
    /// `KROKI_BROWSER_POOL_SIZE`
    pub browser_pool_size: Option<String>,
    /// `KROKI_BROWSER_CONTEXT_TTL_REQUESTS`
    pub browser_context_ttl_requests: Option<String>,
}

/// A text setting: the variable's value when set.
pub open spec fn text_setting(v: Option<String>, old: Seq<char>) -> Seq<char> {
    match v {
        Some(s) => s@,
        None => old,
    }
}

/// A numeric setting: the variable's value when set and a number in range.
pub open spec fn number_setting(v: Option<String>, max: nat, old: nat) -> nat {
    match v {
        Some(s) => match parse_unsigned_spec(s@, max) {
            Some(n) => n,
            None => old,
        },
        None => old,
    }
}

/// A switch: the variable's value when set to `true` or `false`.
pub open spec fn bool_setting(v: Option<String>, old: bool) -> bool {
    match v {
        Some(s) => if s@ == "true"@ {
            true
        } else if s@ == "false"@ {
            false
        } else {
            old
        },
        None => old,
    }
}

/// A count that must stay positive: the variable's value, raised to 1.
pub open spec fn positive_setting(v: Option<String>, max: nat, old: nat) -> nat {
    match v {
        Some(s) => match parse_unsigned_spec(s@, max) {
            Some(n) => if n >= 1 {
                n
            } else {
                1
            },
            None => old,
        },
        None => old,
    }
}

fn text_override(v: &Option<String>, old: &String) -> (r: String)
    ensures
        r@ == text_setting(*v, old@),
{
    match v {
        Some(s) => s.clone(),
        None => old.clone(),
    }
}

fn number_override(v: &Option<String>, max: u64, old: u64) -> (r: u64)
    requires
        old <= max,
    ensures
        r == number_setting(*v, max as nat, old as nat),
        r <= max,
{
    match v {
        Some(s) => match parse_unsigned(s.as_str(), max) {
            Some(n) => n,
            None => old,
        },
        None => old,
    }
}

fn bool_override(v: &Option<String>, old: bool) -> (r: bool)
    ensures
        r == bool_setting(*v, old),
{
    match v {
        Some(s) => match parse_bool(s.as_str()) {
            Some(b) => b,
            None => old,
        },
        None => old,
    }
}

fn positive_override(v: &Option<String>, old: usize) -> (r: usize)
    ensures
        r == positive_setting(*v, usize::MAX as nat, old as nat),
{
    match v {
        Some(s) => match parse_unsigned(s.as_str(), usize::MAX as u64) {
            Some(n) => if n >= 1 {
                n as usize
            } else {
                1
            },
            None => old,
        },
        None => old,
    }
}

impl Config {
    /// Applies the environment overrides: each set variable replaces its
    /// setting when it parses; the browser counts are raised to at least 1.
    pub fn apply_env_overrides(&mut self, env: &EnvOverrides)
        ensures
            final(self).server.host@ == text_setting(env.server_host, old(self).server.host@),
            final(self).server.port == number_setting(env.server_port, u16::MAX as nat, old(self).server.port as nat),
            final(self).server.admin_port == number_setting(env.server_admin_port, u16::MAX as nat, old(self).server.admin_port as nat),
            final(self).server.timeout_ms == number_setting(env.server_timeout_ms, u64::MAX as nat, old(self).server.timeout_ms as nat),
            final(self).server.max_input_size == number_setting(env.server_max_input_size, usize::MAX as nat, old(self).server.max_input_size as nat),
            final(self).server.max_output_size == number_setting(env.server_max_output_size, usize::MAX as nat, old(self).server.max_output_size as nat),
            final(self).server.auth.enabled == bool_setting(env.auth_enabled, old(self).server.auth.enabled),
            final(self).server.auth.header_name@ == text_setting(env.auth_header, old(self).server.auth.header_name@),
            final(self).server.auth.api_keys == old(self).server.auth.api_keys,
            final(self).server.rate_limit.enabled == bool_setting(env.rate_limit_enabled, old(self).server.rate_limit.enabled),
            final(self).server.rate_limit.requests_per_second == number_setting(env.rate_limit_rps, u32::MAX as nat, old(self).server.rate_limit.requests_per_second as nat),
            final(self).server.rate_limit.burst_size == number_setting(env.rate_limit_burst, u32::MAX as nat, old(self).server.rate_limit.burst_size as nat),
            final(self).server.circuit_breaker.enabled == bool_setting(env.circuit_breaker_enabled, old(self).server.circuit_breaker.enabled),
            final(self).server.circuit_breaker.failure_threshold == number_setting(env.circuit_breaker_threshold, u32::MAX as nat, old(self).server.circuit_breaker.failure_threshold as nat),
            final(self).server.circuit_breaker.reset_timeout_secs == number_setting(env.circuit_breaker_reset_secs, u64::MAX as nat, old(self).server.circuit_breaker.reset_timeout_secs as nat),
            final(self).server.log_level == old(self).server.log_level,
            final(self).server.metrics == old(self).server.metrics,
            final(self).browser.pool_size == positive_setting(env.browser_pool_size, usize::MAX as nat, old(self).browser.pool_size as nat),
            final(self).browser.context_ttl_requests == positive_setting(env.browser_context_ttl_requests, usize::MAX as nat, old(self).browser.context_ttl_requests as nat),
            final(self).browser.engine_urls == old(self).browser.engine_urls,
    {
        let host = text_override(&env.server_host, &self.server.host);
        self.server.host = host;
        self.server.port = number_override(&env.server_port, u16::MAX as u64, self.server.port as u64) as u16;
        self.server.admin_port = number_override(&env.server_admin_port, u16::MAX as u64, self.server.admin_port as u64) as u16;
        self.server.timeout_ms = number_override(&env.server_timeout_ms, u64::MAX, self.server.timeout_ms);
        self.server.max_input_size = number_override(&env.server_max_input_size, usize::MAX as u64, self.server.max_input_size as u64) as usize;
        self.server.max_output_size = number_override(&env.server_max_output_size, usize::MAX as u64, self.server.max_output_size as u64) as usize;
        self.server.auth.enabled = bool_override(&env.auth_enabled, self.server.auth.enabled);
        let header = text_override(&env.auth_header, &self.server.auth.header_name);
        self.server.auth.header_name = header;
        self.server.rate_limit.enabled = bool_override(&env.rate_limit_enabled, self.server.rate_limit.enabled);
        self.server.rate_limit.requests_per_second = number_override(&env.rate_limit_rps, u32::MAX as u64, self.server.rate_limit.requests_per_second as u64) as u32;
        self.server.rate_limit.burst_size = number_override(&env.rate_limit_burst, u32::MAX as u64, self.server.rate_limit.burst_size as u64) as u32;
        self.server.circuit_breaker.enabled = bool_override(&env.circuit_breaker_enabled, self.server.circuit_breaker.enabled);
        self.server.circuit_breaker.failure_threshold = number_override(&env.circuit_breaker_threshold, u32::MAX as u64, self.server.circuit_breaker.failure_threshold as u64) as u32;
        self.server.circuit_breaker.reset_timeout_secs = number_override(&env.circuit_breaker_reset_secs, u64::MAX, self.server.circuit_breaker.reset_timeout_secs);
        self.browser.pool_size = positive_override(&env.browser_pool_size, self.browser.pool_size);
        self.browser.context_ttl_requests = positive_override(&env.browser_context_ttl_requests, self.browser.context_ttl_requests);
    }
}

/// The configuration file to read: the explicit path, else the path the
/// `KROKI_CONFIG` variable names, else `kroki.toml` when that file exists.
pub open spec fn config_path_choice(
    explicit: Option<Seq<char>>,
    from_env: Option<Seq<char>>,
    default_exists: bool,
) -> Option<Seq<char>> {
    match explicit {
        Some(p) => Some(p),
        None => match from_env {
            Some(p) => Some(p),
            None => if default_exists {
                Some("kroki.toml"@)
            } else {
                None
            },
        },
    }
}

/// Chooses the configuration file to read (`Config::load`'s first step).
pub fn select_config_path(explicit: Option<String>, from_env: Option<String>, default_exists: bool) -> (r: Option<String>)
    ensures
        (match r {
            Some(p) => Some(p@),
            None => None,
        }) == config_path_choice(
            match explicit {
                Some(p) => Some(p@),
                None => None,
            },
            match from_env {
                Some(p) => Some(p@),
                None => None,
            },
            default_exists,
        ),
{
    match explicit {
        Some(p) => Some(p),
        None => match from_env {
            Some(p) => Some(p),
            None => if default_exists {
                Some(owned("kroki.toml"))
            } else {
                None
            },
        },
    }
}

} // verus!
