//! Environment-variable driven configuration.
//!
//! All variables are optional with sensible defaults. Unknown variables are
//! ignored; invalid values are errors.

use vstd::prelude::*;

use crate::text;
use crate::text::{join, parse_number, text_eq, to_lowercase, NumberFault};
use crate::time::Duration;
use crate::upstream::snapshot::UpstreamScheme;

verus! {

/// Default delay before an inference request is raced on a CPU upstream.
pub const DEFAULT_HEDGE_DELAY_MS: u64 = 5_000;

/// Default per-upstream timeout of control-plane requests.
pub const DEFAULT_CONTROL_TIMEOUT_MS: u64 = 1_000;

/// A variable that holds a number.
#[derive(Debug, Clone, Copy, PartialEq, Eq, Structural)]
pub enum NumberVar {
    /// `BGE_ROUTER_DNS_REFRESH_SECS`
    DnsRefreshSecs,
    /// `BGE_ROUTER_HEALTH_POLL_SECS`
    HealthPollSecs,
    /// `BGE_ROUTER_HEARTBEAT_SECS`
    HeartbeatSecs,
    /// `BGE_ROUTER_FALLBACK_BUDGET_MS`
    FallbackBudgetMs,
    /// `BGE_ROUTER_HEDGE_DELAY_MS`
    HedgeDelayMs,
    /// `BGE_ROUTER_CONTROL_TIMEOUT_MS`
    ControlTimeoutMs,
}

impl NumberVar {
    /// The variable's name in the environment.
    pub open spec fn key_text(self) -> Seq<char> {
        match self {
            NumberVar::DnsRefreshSecs => "BGE_ROUTER_DNS_REFRESH_SECS"@,
            NumberVar::HealthPollSecs => "BGE_ROUTER_HEALTH_POLL_SECS"@,
            NumberVar::HeartbeatSecs => "BGE_ROUTER_HEARTBEAT_SECS"@,
            NumberVar::FallbackBudgetMs => "BGE_ROUTER_FALLBACK_BUDGET_MS"@,
            NumberVar::HedgeDelayMs => "BGE_ROUTER_HEDGE_DELAY_MS"@,
            NumberVar::ControlTimeoutMs => "BGE_ROUTER_CONTROL_TIMEOUT_MS"@,
        }
    }

    /// The variable's name in the environment.
    pub fn key(self) -> (key: &'static str)
        ensures
            key@ == self.key_text(),
    {
        match self {
            NumberVar::DnsRefreshSecs => "BGE_ROUTER_DNS_REFRESH_SECS",
            NumberVar::HealthPollSecs => "BGE_ROUTER_HEALTH_POLL_SECS",
            NumberVar::HeartbeatSecs => "BGE_ROUTER_HEARTBEAT_SECS",
            NumberVar::FallbackBudgetMs => "BGE_ROUTER_FALLBACK_BUDGET_MS",
            NumberVar::HedgeDelayMs => "BGE_ROUTER_HEDGE_DELAY_MS",
            NumberVar::ControlTimeoutMs => "BGE_ROUTER_CONTROL_TIMEOUT_MS",
        }
    }
}

/// Why an environment makes no configuration.
#[derive(Debug, Clone, Copy, PartialEq, Eq, Structural)]
pub enum ConfigError {
    /// The variable is set, and not to a non-negative integer.
    NotANumber(NumberVar, NumberFault),
    /// The variable must be positive and comes out as zero.
    Zero(NumberVar),
    /// One of certificate and private key is set without the other.
    PartialTls,
}

impl ConfigError {
    /// What the operator is told.
    pub open spec fn text(self) -> Seq<char> {
        match self {
            ConfigError::NotANumber(var, _) => "invalid "@ + var.key_text()
                + ": expected a non-negative integer"@,
            ConfigError::Zero(var) => "invalid "@ + var.key_text() + ": must be > 0 (got 0)"@,
            ConfigError::PartialTls => partial_tls_text(),
        }
    }

    /// What the operator is told.
    pub fn message(self) -> (message: String)
        ensures
            message@ == self.text(),
    {
        match self {
            ConfigError::NotANumber(var, _) => {
                let named = join("invalid ", var.key());
                join(named.as_str(), ": expected a non-negative integer")
            },
            ConfigError::Zero(var) => {
                let named = join("invalid ", var.key());
                join(named.as_str(), ": must be > 0 (got 0)")
            },
            ConfigError::PartialTls => {
                "TLS misconfiguration: BGE_ROUTER_TLS_CERT_PATH and BGE_ROUTER_TLS_KEY_PATH must both be set or both be absent".to_owned()
            },
        }
    }
}

impl ConfigError {
    /// What lies behind the error, where something does.
    pub open spec fn cause_text(self) -> Option<Seq<char>> {
        match self {
            ConfigError::NotANumber(_, fault) => Some(fault.label()),
            _ => None,
        }
    }

    /// What lies behind the error, where something does.
    pub fn cause(self) -> (cause: Option<&'static str>)
        ensures
            match cause {
                Some(c) => self.cause_text() == Some(c@),
                None => self.cause_text() is None,
            },
    {
        match self {
            ConfigError::NotANumber(_, fault) => Some(fault.as_str()),
            _ => None,
        }
    }
}

/// What the operator is told of a certificate without a key, or the reverse.
pub open spec fn partial_tls_text() -> Seq<char> {
    "TLS misconfiguration: BGE_ROUTER_TLS_CERT_PATH and BGE_ROUTER_TLS_KEY_PATH must both be set or both be absent"@
}

/// The router's variables as they stand in the environment.
#[derive(Debug)]
pub struct Environment {
    /// `BGE_ROUTER_BIND`
    pub bind: Option<String>,
    /// `BGE_ROUTER_GPU_DNS`
    pub gpu_dns: Option<String>,
    /// `BGE_ROUTER_CPU_DNS`
    pub cpu_dns: Option<String>,
    /// `BGE_ROUTER_DNS_REFRESH_SECS`
    pub dns_refresh_secs: Option<String>,
    /// `BGE_ROUTER_HEALTH_POLL_SECS`
    pub health_poll_secs: Option<String>,
    /// `BGE_ROUTER_HEARTBEAT_SECS`
    pub heartbeat_secs: Option<String>,
    /// `BGE_ROUTER_FALLBACK_BUDGET_MS`
    pub fallback_budget_ms: Option<String>,
    /// `BGE_ROUTER_HEDGE_DELAY_MS`
    pub hedge_delay_ms: Option<String>,
    /// `BGE_ROUTER_CONTROL_TIMEOUT_MS`
    pub control_timeout_ms: Option<String>,
    /// `BGE_ROUTER_TLS_CERT_PATH`
    pub tls_cert_path: Option<String>,
    /// `BGE_ROUTER_TLS_KEY_PATH`
    pub tls_key_path: Option<String>,
    /// `BGE_ROUTER_UPSTREAM_TLS`
    pub upstream_tls: Option<String>,
    /// `BGE_ROUTER_UPSTREAM_CA_BUNDLE`
    pub upstream_ca_bundle: Option<String>,
}

impl Environment {
    /// Every variable holds what `lookup` answers for its name.
    pub open spec fn answered_by<F: Fn(&str) -> Option<String>>(self, lookup: F) -> bool {
        &&& lookup.ensures(("BGE_ROUTER_BIND",), self.bind)
        &&& lookup.ensures(("BGE_ROUTER_GPU_DNS",), self.gpu_dns)
        &&& lookup.ensures(("BGE_ROUTER_CPU_DNS",), self.cpu_dns)
        &&& lookup.ensures(("BGE_ROUTER_DNS_REFRESH_SECS",), self.dns_refresh_secs)
        &&& lookup.ensures(("BGE_ROUTER_HEALTH_POLL_SECS",), self.health_poll_secs)
        &&& lookup.ensures(("BGE_ROUTER_HEARTBEAT_SECS",), self.heartbeat_secs)
        &&& lookup.ensures(("BGE_ROUTER_FALLBACK_BUDGET_MS",), self.fallback_budget_ms)
        &&& lookup.ensures(("BGE_ROUTER_HEDGE_DELAY_MS",), self.hedge_delay_ms)
        &&& lookup.ensures(("BGE_ROUTER_CONTROL_TIMEOUT_MS",), self.control_timeout_ms)
        &&& lookup.ensures(("BGE_ROUTER_TLS_CERT_PATH",), self.tls_cert_path)
        &&& lookup.ensures(("BGE_ROUTER_TLS_KEY_PATH",), self.tls_key_path)
        &&& lookup.ensures(("BGE_ROUTER_UPSTREAM_TLS",), self.upstream_tls)
        &&& lookup.ensures(("BGE_ROUTER_UPSTREAM_CA_BUNDLE",), self.upstream_ca_bundle)
    }

    /// Ask `lookup` for every variable.
    pub fn from_lookup<F: Fn(&str) -> Option<String>>(lookup: &F) -> (env: Self)
        requires
            forall|key: &str| lookup.requires((key,)),
        ensures
            env.answered_by(*lookup),
    {
        Environment {
            bind: lookup("BGE_ROUTER_BIND"),
            gpu_dns: lookup("BGE_ROUTER_GPU_DNS"),
            cpu_dns: lookup("BGE_ROUTER_CPU_DNS"),
            dns_refresh_secs: lookup("BGE_ROUTER_DNS_REFRESH_SECS"),
            health_poll_secs: lookup("BGE_ROUTER_HEALTH_POLL_SECS"),
            heartbeat_secs: lookup("BGE_ROUTER_HEARTBEAT_SECS"),
            fallback_budget_ms: lookup("BGE_ROUTER_FALLBACK_BUDGET_MS"),
            hedge_delay_ms: lookup("BGE_ROUTER_HEDGE_DELAY_MS"),
            control_timeout_ms: lookup("BGE_ROUTER_CONTROL_TIMEOUT_MS"),
            tls_cert_path: lookup("BGE_ROUTER_TLS_CERT_PATH"),
            tls_key_path: lookup("BGE_ROUTER_TLS_KEY_PATH"),
            upstream_tls: lookup("BGE_ROUTER_UPSTREAM_TLS"),
            upstream_ca_bundle: lookup("BGE_ROUTER_UPSTREAM_CA_BUNDLE"),
        }
    }
}

/// The characters of an optional text.
pub open spec fn opt_view(text: Option<String>) -> Option<Seq<char>> {
    match text {
        Some(t) => Some(t@),
        None => None,
    }
}

/// A text variable's value, or its default.
pub open spec fn text_or(raw: Option<String>, default: Seq<char>) -> Seq<char> {
    match raw {
        Some(t) => t@,
        None => default,
    }
}

/// A number variable that is set to something other than a number.
pub open spec fn malformed(raw: Option<String>) -> bool {
    raw matches Some(t) && text::written_u64(t@) is None
}

/// What is wrong with a number variable that is set to something else.
pub open spec fn fault(raw: Option<String>) -> NumberFault {
    match raw {
        Some(t) => text::number_fault(t@),
        None => NumberFault::Empty,
    }
}

/// A number variable's value, where it is set to a number.
pub open spec fn number(raw: Option<String>) -> Option<u64> {
    match raw {
        Some(t) => text::written_u64(t@),
        None => None,
    }
}

/// A number variable's value, or its default.
pub open spec fn number_or(raw: Option<String>, default: u64) -> u64 {
    match number(raw) {
        Some(n) => n,
        None => default,
    }
}

/// The hedge delay: its own variable's value, else the value of the
/// deprecated fallback budget, else the default.
pub open spec fn hedge_ms(env: Environment) -> u64 {
    number_or(env.hedge_delay_ms, number_or(env.fallback_budget_ms, DEFAULT_HEDGE_DELAY_MS))
}

/// The control-plane timeout.
pub open spec fn control_ms(env: Environment) -> u64 {
    number_or(env.control_timeout_ms, DEFAULT_CONTROL_TIMEOUT_MS)
}

/// The first thing wrong with an environment, in the order of reading.
pub open spec fn first_error(env: Environment) -> Option<ConfigError> {
    if malformed(env.dns_refresh_secs) {
        Some(ConfigError::NotANumber(NumberVar::DnsRefreshSecs, fault(env.dns_refresh_secs)))
    } else if malformed(env.health_poll_secs) {
        Some(ConfigError::NotANumber(NumberVar::HealthPollSecs, fault(env.health_poll_secs)))
    } else if malformed(env.heartbeat_secs) {
        Some(ConfigError::NotANumber(NumberVar::HeartbeatSecs, fault(env.heartbeat_secs)))
    } else if malformed(env.fallback_budget_ms) {
        Some(ConfigError::NotANumber(NumberVar::FallbackBudgetMs, fault(env.fallback_budget_ms)))
    } else if malformed(env.hedge_delay_ms) {
        Some(ConfigError::NotANumber(NumberVar::HedgeDelayMs, fault(env.hedge_delay_ms)))
    } else if hedge_ms(env) == 0 {
        Some(ConfigError::Zero(NumberVar::HedgeDelayMs))
    } else if malformed(env.control_timeout_ms) {
        Some(ConfigError::NotANumber(NumberVar::ControlTimeoutMs, fault(env.control_timeout_ms)))
    } else if control_ms(env) == 0 {
        Some(ConfigError::Zero(NumberVar::ControlTimeoutMs))
    } else if env.tls_cert_path is Some != env.tls_key_path is Some {
        Some(ConfigError::PartialTls)
    } else {
        None
    }
}

/// A lower-case word that switches an option on.
pub open spec fn affirms(word: Seq<char>) -> bool {
    word == "1"@ || word == "true"@ || word == "yes"@
}

/// Whether a lower-case word switches an option on.
pub fn is_affirmative(word: &str) -> (on: bool)
    ensures
        on == affirms(word@),
{
    text_eq(word, "1") || text_eq(word, "true") || text_eq(word, "yes")
}

/// Whether a switch variable is on: set to `1`, `true` or `yes`, in whatever
/// case.
pub open spec fn switched_on(raw: Option<String>) -> bool {
    raw matches Some(t) && affirms(text::lowercase_of(t@))
}

/// A switch set to a text of ASCII characters is on exactly when the text,
/// with its letters lowered, is one of the words that switch it on.
pub open spec fn follows_ascii(raw: Option<String>, on: bool) -> bool {
    match raw {
        Some(t) => text::is_ascii_text(t@) ==> on == affirms(text::ascii_lowered(t@)),
        None => !on,
    }
}

/// Whether a switch variable is on.
fn is_switched_on(raw: &Option<String>) -> (on: bool)
    ensures
        on == switched_on(*raw),
        follows_ascii(*raw, on),
{
    match raw {
        Some(t) => {
            let word = to_lowercase(t.as_str());
            is_affirmative(word.as_str())
        },
        None => false,
    }
}

/// Read an optional number variable.
pub fn parse_optional_u64(var: NumberVar, raw: &Option<String>) -> (parsed: Result<
    Option<u64>,
    ConfigError,
>)
    ensures
        parsed == if malformed(*raw) {
            Err::<Option<u64>, ConfigError>(ConfigError::NotANumber(var, fault(*raw)))
        } else {
            Ok::<Option<u64>, ConfigError>(number(*raw))
        },
        *raw is None ==> parsed == Ok::<Option<u64>, ConfigError>(None),
        *raw matches Some(t) ==> parsed == match text::written_u64(t@) {
            Some(n) => Ok::<Option<u64>, ConfigError>(Some(n)),
            None => Err::<Option<u64>, ConfigError>(
                ConfigError::NotANumber(var, text::number_fault(t@)),
            ),
        },
{
    match raw {
        Some(t) => match parse_number(t.as_str()) {
            Ok(n) => Ok(Some(n)),
            Err(e) => Err(ConfigError::NotANumber(var, e)),
        },
        None => Ok(None),
    }
}

/// Read a number variable that has a default.
pub fn parse_u64(var: NumberVar, default: u64, raw: &Option<String>) -> (parsed: Result<
    u64,
    ConfigError,
>)
    ensures
        parsed == if malformed(*raw) {
            Err::<u64, ConfigError>(ConfigError::NotANumber(var, fault(*raw)))
        } else {
            Ok::<u64, ConfigError>(number_or(*raw, default))
        },
        *raw is None ==> parsed == Ok::<u64, ConfigError>(default),
        *raw matches Some(t) ==> parsed == match text::written_u64(t@) {
            Some(n) => Ok::<u64, ConfigError>(n),
            None => Err::<u64, ConfigError>(
                ConfigError::NotANumber(var, text::number_fault(t@)),
            ),
        },
{
    match raw {
        Some(t) => match parse_number(t.as_str()) {
            Ok(n) => Ok(n),
            Err(e) => Err(ConfigError::NotANumber(var, e)),
        },
        None => Ok(default),
    }
}

/// Resolved runtime configuration.
#[derive(Debug)]
pub struct Config {
    /// TCP address to bind the HTTP server (`BGE_ROUTER_BIND`, default `0.0.0.0:8081`).
    pub bind: String,
    /// DNS name to resolve for GPU upstreams (`BGE_ROUTER_GPU_DNS`).
    pub gpu_dns: String,
    /// DNS name to resolve for CPU upstreams (`BGE_ROUTER_CPU_DNS`).
    pub cpu_dns: String,
    /// How often to re-resolve both DNS names (`BGE_ROUTER_DNS_REFRESH_SECS`, default 30).
    pub dns_refresh: Duration,
    /// How often to poll each upstream's `/health` (`BGE_ROUTER_HEALTH_POLL_SECS`,
    /// default 5).
    pub health_poll: Duration,
    /// Delay before firing the parallel CPU race for inference routes
    /// (`BGE_ROUTER_HEDGE_DELAY_MS`, default 5000).
    pub hedge_delay: Duration,
    /// Per-upstream hard timeout for control-plane routes
    /// (`BGE_ROUTER_CONTROL_TIMEOUT_MS`, default 1000).
    pub control_timeout: Duration,
    /// Whether the deprecated `BGE_ROUTER_FALLBACK_BUDGET_MS` is set. Without
    /// `BGE_ROUTER_HEDGE_DELAY_MS` it stands in for it.
    pub legacy_fallback_budget_set: bool,
    /// Interval between heartbeat log events (`BGE_ROUTER_HEARTBEAT_SECS`, default 60).
    /// Zero disables heartbeats.
    pub heartbeat: Duration,
    /// Path to the TLS certificate PEM for the inbound listener
    /// (`BGE_ROUTER_TLS_CERT_PATH`).
    pub tls_cert_path: Option<String>,
    /// Path to the TLS private-key PEM for the inbound listener
    /// (`BGE_ROUTER_TLS_KEY_PATH`).
    pub tls_key_path: Option<String>,
    /// Path to a CA-bundle PEM to trust for upstream connections
    /// (`BGE_ROUTER_UPSTREAM_CA_BUNDLE`).
    pub upstream_ca_bundle: Option<String>,
    /// Whether upstream connections use HTTPS (`BGE_ROUTER_UPSTREAM_TLS`).
    pub upstream_tls: bool,
}

impl Clone for Config {
    fn clone(&self) -> (copy: Self)
        ensures
            copy == *self,
    {
        Config {
            bind: self.bind.clone(),
            gpu_dns: self.gpu_dns.clone(),
            cpu_dns: self.cpu_dns.clone(),
            dns_refresh: self.dns_refresh,
            health_poll: self.health_poll,
            hedge_delay: self.hedge_delay,
            control_timeout: self.control_timeout,
            legacy_fallback_budget_set: self.legacy_fallback_budget_set,
            heartbeat: self.heartbeat,
            tls_cert_path: self.tls_cert_path.clone(),
            tls_key_path: self.tls_key_path.clone(),
            upstream_ca_bundle: self.upstream_ca_bundle.clone(),
            upstream_tls: self.upstream_tls,
        }
    }
}

impl Config {
    /// This is the configuration that an environment without errors makes.
    pub open spec fn is_from(self, env: Environment) -> bool {
        &&& self.bind@ == text_or(env.bind, "0.0.0.0:8081"@)
        &&& self.gpu_dns@ == text_or(env.gpu_dns, "bge-m3-gpu.codekeeper.internal"@)
        &&& self.cpu_dns@ == text_or(env.cpu_dns, "bge-m3-cpu.codekeeper.internal"@)
        &&& self.dns_refresh@ == number_or(env.dns_refresh_secs, 30) * 1_000_000_000
        &&& self.health_poll@ == number_or(env.health_poll_secs, 5) * 1_000_000_000
        &&& self.hedge_delay@ == hedge_ms(env) * 1_000_000
        &&& self.control_timeout@ == control_ms(env) * 1_000_000
        &&& self.legacy_fallback_budget_set == (env.fallback_budget_ms is Some)
        &&& self.heartbeat@ == number_or(env.heartbeat_secs, 60) * 1_000_000_000
        &&& opt_view(self.tls_cert_path) == opt_view(env.tls_cert_path)
        &&& opt_view(self.tls_key_path) == opt_view(env.tls_key_path)
        &&& opt_view(self.upstream_ca_bundle) == opt_view(env.upstream_ca_bundle)
        &&& self.upstream_tls == switched_on(env.upstream_tls)
    }

    /// Make a configuration of an environment.
    pub fn from_environment(env: Environment) -> (made: Result<Self, ConfigError>)
        ensures
            match made {
                Ok(config) => first_error(env) is None && config.is_from(env),
                Err(e) => first_error(env) == Some(e),
            },
            made matches Ok(config) ==> follows_ascii(env.upstream_tls, config.upstream_tls),
    {
        let bind = match env.bind {
            Some(t) => t,
            None => "0.0.0.0:8081".to_owned(),
        };
        let gpu_dns = match env.gpu_dns {
            Some(t) => t,
            None => "bge-m3-gpu.codekeeper.internal".to_owned(),
        };
        let cpu_dns = match env.cpu_dns {
            Some(t) => t,
            None => "bge-m3-cpu.codekeeper.internal".to_owned(),
        };

        let dns_refresh_secs: u64 = match parse_u64(
            NumberVar::DnsRefreshSecs,
            30,
            &env.dns_refresh_secs,
        ) {
            Ok(n) => n,
            Err(e) => return Err(e),
        };
        let health_poll_secs: u64 = match parse_u64(
            NumberVar::HealthPollSecs,
            5,
            &env.health_poll_secs,
        ) {
            Ok(n) => n,
            Err(e) => return Err(e),
        };
        let heartbeat_secs: u64 = match parse_u64(NumberVar::HeartbeatSecs, 60, &env.heartbeat_secs) {
            Ok(n) => n,
            Err(e) => return Err(e),
        };

        let legacy_raw: Option<u64> = match parse_optional_u64(
            NumberVar::FallbackBudgetMs,
            &env.fallback_budget_ms,
        ) {
            Ok(n) => n,
            Err(e) => return Err(e),
        };
        let legacy_fallback_budget_set = legacy_raw.is_some();

        let own_hedge_ms: Option<u64> = match parse_optional_u64(
            NumberVar::HedgeDelayMs,
            &env.hedge_delay_ms,
        ) {
            Ok(n) => n,
            Err(e) => return Err(e),
        };
        let hedge_delay_ms: u64 = match own_hedge_ms {
            Some(n) => n,
            None => legacy_raw.unwrap_or(DEFAULT_HEDGE_DELAY_MS),
        };
        if hedge_delay_ms == 0 {
            return Err(ConfigError::Zero(NumberVar::HedgeDelayMs));
        }

        let control_timeout_ms: u64 = match parse_u64(
            NumberVar::ControlTimeoutMs,
            DEFAULT_CONTROL_TIMEOUT_MS,
            &env.control_timeout_ms,
        ) {
            Ok(n) => n,
            Err(e) => return Err(e),
        };
        if control_timeout_ms == 0 {
            return Err(ConfigError::Zero(NumberVar::ControlTimeoutMs));
        }
        if env.tls_cert_path.is_some() != env.tls_key_path.is_some() {
            return Err(ConfigError::PartialTls);
        }
        let upstream_tls = is_switched_on(&env.upstream_tls);

        Ok(
            Config {
                bind,
                gpu_dns,
                cpu_dns,
                dns_refresh: Duration::from_secs(dns_refresh_secs),
                health_poll: Duration::from_secs(health_poll_secs),
                hedge_delay: Duration::from_millis(hedge_delay_ms),
                control_timeout: Duration::from_millis(control_timeout_ms),
                legacy_fallback_budget_set,
                heartbeat: Duration::from_secs(heartbeat_secs),
                tls_cert_path: env.tls_cert_path,
                tls_key_path: env.tls_key_path,
                upstream_ca_bundle: env.upstream_ca_bundle,
                upstream_tls,
            },
        )
    }

    /// Load configuration from a caller-supplied lookup function.
    ///
    /// # Errors
    ///
    /// Returns an error if any numeric variable is present but cannot be parsed,
    /// if the hedge delay or the control timeout comes out as `0`, or if only
    /// one of the TLS certificate and key paths is set.
    pub fn from_lookup<F: Fn(&str) -> Option<String>>(lookup: F) -> (made: Result<
        Self,
        ConfigError,
    >)
        requires
            forall|key: &str| lookup.requires((key,)),
        ensures
            exists|env: Environment|
                {
                    &&& #[trigger] env.answered_by(lookup)
                    &&& match made {
                        Ok(config) => first_error(env) is None && config.is_from(env),
                        Err(e) => first_error(env) == Some(e),
                    }
                    &&& made matches Ok(config) ==> follows_ascii(
                        env.upstream_tls,
                        config.upstream_tls,
                    )
                },
    {
        let env = Environment::from_lookup(&lookup);
        let ghost asked = env;
        assert(asked.answered_by(lookup));
        Config::from_environment(env)
    }

    /// Return the [`UpstreamScheme`] to use when contacting upstreams.
    #[must_use]
    pub fn upstream_scheme(&self) -> (scheme: UpstreamScheme)
        ensures
            scheme == if self.upstream_tls {
                UpstreamScheme::Https
            } else {
                UpstreamScheme::Http
            },
    {
        if self.upstream_tls {
            UpstreamScheme::Https
        } else {
            UpstreamScheme::Http
        }
    }
}

/// An environment that sets none of the variables.
pub open spec fn is_unset(env: Environment) -> bool {
    &&& env.bind is None
    &&& env.gpu_dns is None
    &&& env.cpu_dns is None
    &&& env.dns_refresh_secs is None
    &&& env.health_poll_secs is None
    &&& env.heartbeat_secs is None
    &&& env.fallback_budget_ms is None
    &&& env.hedge_delay_ms is None
    &&& env.control_timeout_ms is None
    &&& env.tls_cert_path is None
    &&& env.tls_key_path is None
    &&& env.upstream_tls is None
    &&& env.upstream_ca_bundle is None
}

/// An environment that sets nothing makes a configuration, with a hedge delay
/// of five seconds, a control timeout of one, plain HTTP both ways and no
/// deprecation notice.
pub proof fn unset_environment_makes_defaults(env: Environment, config: Config)
    requires
        is_unset(env),
        config.is_from(env),
    ensures
        first_error(env) is None,
        config.bind@ == "0.0.0.0:8081"@,
        config.gpu_dns@ == "bge-m3-gpu.codekeeper.internal"@,
        config.cpu_dns@ == "bge-m3-cpu.codekeeper.internal"@,
        config.dns_refresh@ == 30_000_000_000,
        config.health_poll@ == 5_000_000_000,
        config.hedge_delay@ == 5_000_000_000,
        config.control_timeout@ == 1_000_000_000,
        config.heartbeat@ == 60_000_000_000,
        !config.legacy_fallback_budget_set,
        config.tls_cert_path is None,
        config.tls_key_path is None,
        !config.upstream_tls,
{
}

/// Every configuration that is made has a positive hedge delay, a positive
/// control timeout, and a certificate exactly when it has a key.
pub proof fn made_config_is_sound(env: Environment, config: Config)
    requires
        first_error(env) is None,
        config.is_from(env),
    ensures
        config.hedge_delay@ > 0,
        config.control_timeout@ > 0,
        config.tls_cert_path is Some <==> config.tls_key_path is Some,
{
}

/// A hedge delay that is set always wins over the deprecated fallback budget;
/// the budget counts only without one, and its being set is remembered either
/// way.
pub proof fn explicit_hedge_delay_wins(env: Environment, config: Config, n: u64)
    requires
        first_error(env) is None,
        config.is_from(env),
    ensures
        number(env.hedge_delay_ms) == Some(n) ==> config.hedge_delay@ == n * 1_000_000,
        env.hedge_delay_ms is None && number(env.fallback_budget_ms) == Some(n)
            ==> config.hedge_delay@ == n * 1_000_000,
        env.fallback_budget_ms is Some <==> config.legacy_fallback_budget_set,
{
}

/// The control timeout depends on its own variable alone: whatever else two
/// environments differ in, the deprecated fallback budget among it, they make
/// the same control timeout when they agree on that variable.
pub proof fn control_timeout_has_one_source(
    env: Environment,
    config: Config,
    other_env: Environment,
    other: Config,
)
    requires
        config.is_from(env),
        other.is_from(other_env),
        opt_view(env.control_timeout_ms) == opt_view(other_env.control_timeout_ms),
    ensures
        config.control_timeout@ == other.control_timeout@,
{
}

/// A zero hedge delay, whether from its own variable or from the deprecated
/// fallback budget, and a zero control timeout make no configuration.
pub proof fn zero_budget_is_rejected(env: Environment)
    requires
        number(env.hedge_delay_ms) == Some(0u64) || (env.hedge_delay_ms is None && number(
            env.fallback_budget_ms,
        ) == Some(0u64)) || number(env.control_timeout_ms) == Some(0u64),
    ensures
        first_error(env) is Some,
{
}

/// An environment makes a configuration exactly when every number that is set is
/// one, the hedge delay does not come out as zero, from its own variable or from
/// the deprecated fallback budget, the control timeout is not zero, and
/// certificate and key are set together or not at all.
pub proof fn accepted_environments(env: Environment)
    ensures
        first_error(env) is None <==> {
            &&& env.dns_refresh_secs matches Some(t) ==> text::written_u64(t@) is Some
            &&& env.health_poll_secs matches Some(t) ==> text::written_u64(t@) is Some
            &&& env.heartbeat_secs matches Some(t) ==> text::written_u64(t@) is Some
            &&& env.fallback_budget_ms matches Some(t) ==> text::written_u64(t@) is Some
            &&& env.hedge_delay_ms matches Some(t) ==> text::written_u64(t@) is Some
            &&& env.control_timeout_ms matches Some(t) ==> text::written_u64(t@) is Some
            &&& env.hedge_delay_ms matches Some(t) ==> text::written_u64(t@) != Some(0u64)
            &&& env.hedge_delay_ms is None ==> (env.fallback_budget_ms matches Some(t)
                ==> text::written_u64(t@) != Some(0u64))
            &&& env.control_timeout_ms matches Some(t) ==> text::written_u64(t@) != Some(0u64)
            &&& env.tls_cert_path is Some <==> env.tls_key_path is Some
        },
{
}

/// The first fault of an environment is the one that is reported: a variable
/// that is no number, by its name and with what is wrong with it, then a zero,
/// then a certificate without a key or the reverse.
pub proof fn first_fault_is_reported(env: Environment)
    ensures
        ({
            let bad = |raw: Option<String>| raw matches Some(t) && text::written_u64(t@) is None;
            let error = first_error(env);
            let dns = bad(env.dns_refresh_secs);
            let poll = bad(env.health_poll_secs);
            let beat = bad(env.heartbeat_secs);
            let budget = bad(env.fallback_budget_ms);
            let hedge = bad(env.hedge_delay_ms);
            let control = bad(env.control_timeout_ms);
            let early = dns || poll || beat || budget || hedge;
            let no_hedge = (env.hedge_delay_ms matches Some(t) && text::written_u64(t@) == Some(
                0u64,
            )) || (env.hedge_delay_ms is None && (env.fallback_budget_ms matches Some(t)
                && text::written_u64(t@) == Some(0u64)));
            let no_control = env.control_timeout_ms matches Some(t) && text::written_u64(t@)
                == Some(0u64);
            &&& dns ==> error == Some(
                ConfigError::NotANumber(
                    NumberVar::DnsRefreshSecs,
                    text::number_fault(env.dns_refresh_secs->0@),
                ),
            )
            &&& poll && !dns ==> error == Some(
                ConfigError::NotANumber(
                    NumberVar::HealthPollSecs,
                    text::number_fault(env.health_poll_secs->0@),
                ),
            )
            &&& beat && !dns && !poll ==> error == Some(
                ConfigError::NotANumber(
                    NumberVar::HeartbeatSecs,
                    text::number_fault(env.heartbeat_secs->0@),
                ),
            )
            &&& budget && !dns && !poll && !beat ==> error == Some(
                ConfigError::NotANumber(
                    NumberVar::FallbackBudgetMs,
                    text::number_fault(env.fallback_budget_ms->0@),
                ),
            )
            &&& hedge && !dns && !poll && !beat && !budget ==> error == Some(
                ConfigError::NotANumber(
                    NumberVar::HedgeDelayMs,
                    text::number_fault(env.hedge_delay_ms->0@),
                ),
            )
            &&& no_hedge && !early ==> error == Some(ConfigError::Zero(NumberVar::HedgeDelayMs))
            &&& control && !early && !no_hedge ==> error == Some(
                ConfigError::NotANumber(
                    NumberVar::ControlTimeoutMs,
                    text::number_fault(env.control_timeout_ms->0@),
                ),
            )
            &&& no_control && !early && !no_hedge ==> error == Some(
                ConfigError::Zero(NumberVar::ControlTimeoutMs),
            )
            &&& env.tls_cert_path is Some != env.tls_key_path is Some && !early && !no_hedge
                && !control && !no_control ==> error == Some(ConfigError::PartialTls)
        }),
{
}

/// A configuration takes over what the environment sets, each setting from its
/// own variable and in its own unit.
pub proof fn settings_are_taken_over(env: Environment, config: Config)
    requires
        first_error(env) is None,
        config.is_from(env),
    ensures
        env.bind matches Some(t) ==> config.bind@ == t@,
        env.gpu_dns matches Some(t) ==> config.gpu_dns@ == t@,
        env.cpu_dns matches Some(t) ==> config.cpu_dns@ == t@,
        env.dns_refresh_secs matches Some(t) ==> text::written_u64(t@) matches Some(n)
            && config.dns_refresh@ == n * 1_000_000_000,
        env.health_poll_secs matches Some(t) ==> text::written_u64(t@) matches Some(n)
            && config.health_poll@ == n * 1_000_000_000,
        env.heartbeat_secs matches Some(t) ==> text::written_u64(t@) matches Some(n)
            && config.heartbeat@ == n * 1_000_000_000,
        env.hedge_delay_ms matches Some(t) ==> text::written_u64(t@) matches Some(n)
            && config.hedge_delay@ == n * 1_000_000,
        env.hedge_delay_ms is None ==> (env.fallback_budget_ms matches Some(t)
            ==> text::written_u64(t@) matches Some(n) && config.hedge_delay@ == n * 1_000_000),
        env.control_timeout_ms matches Some(t) ==> text::written_u64(t@) matches Some(n)
            && config.control_timeout@ == n * 1_000_000,
        config.legacy_fallback_budget_set <==> env.fallback_budget_ms is Some,
        env.tls_cert_path matches Some(t) ==> config.tls_cert_path matches Some(path) && path@
            == t@,
        env.tls_key_path matches Some(t) ==> config.tls_key_path matches Some(path) && path@ == t@,
        env.upstream_ca_bundle matches Some(t) ==> config.upstream_ca_bundle matches Some(path)
            && path@ == t@,
        env.upstream_tls matches Some(t) ==> {
            let word = text::lowercase_of(t@);
            config.upstream_tls <==> word == "1"@ || word == "true"@ || word == "yes"@
        },
{
}

/// A setting whose variable is not set has its default, whatever else is set.
pub proof fn unset_settings_have_defaults(env: Environment, config: Config)
    requires
        first_error(env) is None,
        config.is_from(env),
    ensures
        env.bind is None ==> config.bind@ == "0.0.0.0:8081"@,
        env.gpu_dns is None ==> config.gpu_dns@ == "bge-m3-gpu.codekeeper.internal"@,
        env.cpu_dns is None ==> config.cpu_dns@ == "bge-m3-cpu.codekeeper.internal"@,
        env.dns_refresh_secs is None ==> config.dns_refresh@ == 30_000_000_000,
        env.health_poll_secs is None ==> config.health_poll@ == 5_000_000_000,
        env.heartbeat_secs is None ==> config.heartbeat@ == 60_000_000_000,
        env.hedge_delay_ms is None && env.fallback_budget_ms is None ==> config.hedge_delay@
            == 5_000_000_000,
        env.control_timeout_ms is None ==> config.control_timeout@ == 1_000_000_000,
        env.tls_cert_path is None ==> config.tls_cert_path is None,
        env.tls_key_path is None ==> config.tls_key_path is None,
        env.upstream_ca_bundle is None ==> config.upstream_ca_bundle is None,
        env.upstream_tls is None ==> !config.upstream_tls,
{
}

/// Three words switch an option on, in whatever case they are written, and no
/// other ASCII text does; one that is not set is off.
pub proof fn switch_words(word: Seq<char>, t: String, on: bool)
    ensures
        affirms(word) <==> word == "1"@ || word == "true"@ || word == "yes"@,
        follows_ascii(Some(t), on) && text::is_ascii_text(t@) ==> {
            let lower = t@.map_values(
                |c: char|
                    if 'A' <= c <= 'Z' {
                        ((c as u32 + 32) as u32) as char
                    } else {
                        c
                    },
            );
            on <==> lower == "1"@ || lower == "true"@ || lower == "yes"@
        },
        follows_ascii(None, on) ==> !on,
        !switched_on(None),
{
    let lower = t@.map_values(
        |c: char|
            if 'A' <= c <= 'Z' {
                ((c as u32 + 32) as u32) as char
            } else {
                c
            },
    );
    assert(lower =~= text::ascii_lowered(t@));
}

/// Every variable of an environment comes from the lookup under its own name.
pub proof fn variables_come_from_their_names<F: Fn(&str) -> Option<String>>(
    env: Environment,
    lookup: F,
)
    requires
        env.answered_by(lookup),
    ensures
        lookup.ensures(("BGE_ROUTER_BIND",), env.bind),
        lookup.ensures(("BGE_ROUTER_GPU_DNS",), env.gpu_dns),
        lookup.ensures(("BGE_ROUTER_CPU_DNS",), env.cpu_dns),
        lookup.ensures(("BGE_ROUTER_DNS_REFRESH_SECS",), env.dns_refresh_secs),
        lookup.ensures(("BGE_ROUTER_HEALTH_POLL_SECS",), env.health_poll_secs),
        lookup.ensures(("BGE_ROUTER_HEARTBEAT_SECS",), env.heartbeat_secs),
        lookup.ensures(("BGE_ROUTER_FALLBACK_BUDGET_MS",), env.fallback_budget_ms),
        lookup.ensures(("BGE_ROUTER_HEDGE_DELAY_MS",), env.hedge_delay_ms),
        lookup.ensures(("BGE_ROUTER_CONTROL_TIMEOUT_MS",), env.control_timeout_ms),
        lookup.ensures(("BGE_ROUTER_TLS_CERT_PATH",), env.tls_cert_path),
        lookup.ensures(("BGE_ROUTER_TLS_KEY_PATH",), env.tls_key_path),
        lookup.ensures(("BGE_ROUTER_UPSTREAM_TLS",), env.upstream_tls),
        lookup.ensures(("BGE_ROUTER_UPSTREAM_CA_BUNDLE",), env.upstream_ca_bundle),
{
}

/// An error names the variable that it is about, says what was expected of it,
/// and has a cause exactly when the variable is no number.
pub proof fn errors_name_their_variable(var: NumberVar, fault: NumberFault)
    ensures
        ({
            let key = match var {
                NumberVar::DnsRefreshSecs => "BGE_ROUTER_DNS_REFRESH_SECS"@,
                NumberVar::HealthPollSecs => "BGE_ROUTER_HEALTH_POLL_SECS"@,
                NumberVar::HeartbeatSecs => "BGE_ROUTER_HEARTBEAT_SECS"@,
                NumberVar::FallbackBudgetMs => "BGE_ROUTER_FALLBACK_BUDGET_MS"@,
                NumberVar::HedgeDelayMs => "BGE_ROUTER_HEDGE_DELAY_MS"@,
                NumberVar::ControlTimeoutMs => "BGE_ROUTER_CONTROL_TIMEOUT_MS"@,
            };
            &&& ConfigError::NotANumber(var, fault).text() == "invalid "@ + key
                + ": expected a non-negative integer"@
            &&& ConfigError::Zero(var).text() == "invalid "@ + key + ": must be > 0 (got 0)"@
        }),
        ConfigError::NotANumber(var, fault).cause_text() == Some(
            match fault {
                NumberFault::Empty => "cannot parse integer from empty string"@,
                NumberFault::InvalidDigit => "invalid digit found in string"@,
                NumberFault::TooLarge => "number too large to fit in target type"@,
            },
        ),
        ConfigError::Zero(var).cause_text() is None,
        ConfigError::PartialTls.cause_text() is None,
        ConfigError::PartialTls.text()
            == "TLS misconfiguration: BGE_ROUTER_TLS_CERT_PATH and BGE_ROUTER_TLS_KEY_PATH must both be set or both be absent"@,
{
}

}
