//! Configuration from an injected environment.

use std::collections::HashMap;

use bge_router::config::{Config, ConfigError, Environment, NumberVar};
use bge_router::config::{is_affirmative, parse_optional_u64, parse_u64};
use bge_router::text::NumberFault;
use bge_router::time::Duration;
use bge_router::upstream::snapshot::UpstreamScheme;

fn from_map(entries: &[(&str, &str)]) -> Result<Config, ConfigError> {
    let map: HashMap<String, String> = entries
        .iter()
        .map(|(k, v)| ((*k).to_string(), (*v).to_string()))
        .collect();
    Config::from_lookup(|k: &str| map.get(k).cloned())
}

fn empty_lookup() -> Config {
    Config::from_lookup(|_: &str| None).expect("empty environment must produce defaults")
}

// ── defaults ────────────────────────────────────────────────────────────────

#[test]
fn from_lookup_succeeds_with_no_vars_set() {
    let _ = empty_lookup();
}

#[test]
fn default_bind_address() {
    assert_eq!(empty_lookup().bind, "0.0.0.0:8081");
}

#[test]
fn default_gpu_dns() {
    assert_eq!(empty_lookup().gpu_dns, "bge-m3-gpu.codekeeper.internal");
}

#[test]
fn default_cpu_dns() {
    assert_eq!(empty_lookup().cpu_dns, "bge-m3-cpu.codekeeper.internal");
}

#[test]
fn default_dns_refresh_is_30s() {
    assert_eq!(empty_lookup().dns_refresh, Duration::from_secs(30));
}

#[test]
fn default_health_poll_is_5s() {
    assert_eq!(empty_lookup().health_poll, Duration::from_secs(5));
}

#[test]
fn default_hedge_delay_is_5000ms() {
    assert_eq!(empty_lookup().hedge_delay, Duration::from_secs(5));
}

#[test]
fn default_control_timeout_is_1000ms() {
    assert_eq!(empty_lookup().control_timeout, Duration::from_secs(1));
}

#[test]
fn default_heartbeat_is_60s() {
    assert_eq!(empty_lookup().heartbeat, Duration::from_secs(60));
}

#[test]
fn default_does_not_set_legacy_flag() {
    assert!(!empty_lookup().legacy_fallback_budget_set);
}

#[test]
fn default_is_plain_http_without_paths() {
    let cfg = empty_lookup();
    assert!(cfg.tls_cert_path.is_none());
    assert!(cfg.tls_key_path.is_none());
    assert!(cfg.upstream_ca_bundle.is_none());
    assert!(!cfg.upstream_tls);
    assert_eq!(cfg.upstream_scheme(), UpstreamScheme::Http);
}

// ── overrides via lookup ────────────────────────────────────────────────────

#[test]
fn explicit_hedge_delay_overrides_default() {
    let cfg = from_map(&[("BGE_ROUTER_HEDGE_DELAY_MS", "2500")]).unwrap();
    assert_eq!(cfg.hedge_delay, Duration::from_millis(2_500));
    assert!(!cfg.legacy_fallback_budget_set);
}

#[test]
fn explicit_control_timeout_overrides_default() {
    let cfg = from_map(&[("BGE_ROUTER_CONTROL_TIMEOUT_MS", "300")]).unwrap();
    assert_eq!(cfg.control_timeout, Duration::from_millis(300));
}

#[test]
fn every_variable_is_read() {
    let cfg = from_map(&[
        ("BGE_ROUTER_BIND", "127.0.0.1:9000"),
        ("BGE_ROUTER_GPU_DNS", "gpu.test"),
        ("BGE_ROUTER_CPU_DNS", "cpu.test"),
        ("BGE_ROUTER_DNS_REFRESH_SECS", "7"),
        ("BGE_ROUTER_HEALTH_POLL_SECS", "+8"),
        ("BGE_ROUTER_HEARTBEAT_SECS", "0"),
        ("BGE_ROUTER_TLS_CERT_PATH", "/tls/cert.pem"),
        ("BGE_ROUTER_TLS_KEY_PATH", "/tls/key.pem"),
        ("BGE_ROUTER_UPSTREAM_TLS", "1"),
        ("BGE_ROUTER_UPSTREAM_CA_BUNDLE", "/tls/ca.pem"),
    ])
    .unwrap();
    assert_eq!(cfg.bind, "127.0.0.1:9000");
    assert_eq!(cfg.gpu_dns, "gpu.test");
    assert_eq!(cfg.cpu_dns, "cpu.test");
    assert_eq!(cfg.dns_refresh, Duration::from_secs(7));
    assert_eq!(cfg.health_poll, Duration::from_secs(8));
    assert!(cfg.heartbeat.is_zero());
    assert_eq!(cfg.tls_cert_path.as_deref(), Some("/tls/cert.pem"));
    assert_eq!(cfg.tls_key_path.as_deref(), Some("/tls/key.pem"));
    assert_eq!(cfg.upstream_ca_bundle.as_deref(), Some("/tls/ca.pem"));
    assert!(cfg.upstream_tls);
    assert_eq!(cfg.upstream_scheme(), UpstreamScheme::Https);
}

#[test]
fn upstream_tls_words_are_read_in_any_case() {
    for on in ["1", "true", "yes", "TRUE", "Yes", "tRuE"] {
        let cfg = from_map(&[("BGE_ROUTER_UPSTREAM_TLS", on)]).unwrap();
        assert!(cfg.upstream_tls, "{on}");
    }
    for off in ["", "0", "false", "no", "on", "y", " true", "ｔｒｕｅ"] {
        let cfg = from_map(&[("BGE_ROUTER_UPSTREAM_TLS", off)]).unwrap();
        assert!(!cfg.upstream_tls, "{off}");
    }
}

#[test]
fn affirmative_words_are_lower_case() {
    assert!(is_affirmative("yes"));
    assert!(!is_affirmative("YES"));
}

// ── back-compat: legacy BGE_ROUTER_FALLBACK_BUDGET_MS ──────────────────────

#[test]
fn legacy_fallback_budget_seeds_hedge_delay_when_new_var_absent() {
    let cfg = from_map(&[("BGE_ROUTER_FALLBACK_BUDGET_MS", "1500")]).unwrap();
    assert_eq!(cfg.hedge_delay, Duration::from_millis(1_500));
    assert!(cfg.legacy_fallback_budget_set);
}

#[test]
fn legacy_fallback_budget_does_not_affect_control_timeout() {
    let cfg = from_map(&[("BGE_ROUTER_FALLBACK_BUDGET_MS", "9000")]).unwrap();
    assert_eq!(cfg.control_timeout, Duration::from_secs(1));
}

#[test]
fn explicit_hedge_delay_wins_over_legacy_var() {
    let cfg = from_map(&[
        ("BGE_ROUTER_FALLBACK_BUDGET_MS", "9000"),
        ("BGE_ROUTER_HEDGE_DELAY_MS", "2000"),
    ])
    .unwrap();
    assert_eq!(cfg.hedge_delay, Duration::from_secs(2));
    // The flag is still set, so that operators are told to drop the variable.
    assert!(cfg.legacy_fallback_budget_set);
}

#[test]
fn legacy_fallback_budget_seeds_hedge_delay() {
    let cfg = Config::from_lookup(|key: &str| match key {
        "BGE_ROUTER_FALLBACK_BUDGET_MS" => Some("2750".to_string()),
        _ => None,
    })
    .expect("legacy var alone is valid");
    assert_eq!(cfg.hedge_delay, Duration::from_millis(2_750));
    assert!(cfg.legacy_fallback_budget_set);
    // Control plane MUST keep its short hard timeout.
    assert_eq!(cfg.control_timeout, Duration::from_secs(1));
}

// ── validation ──────────────────────────────────────────────────────────────

#[test]
fn zero_hedge_delay_is_rejected() {
    let err = from_map(&[("BGE_ROUTER_HEDGE_DELAY_MS", "0")]).unwrap_err();
    let msg = err.message();
    assert!(
        msg.contains("BGE_ROUTER_HEDGE_DELAY_MS"),
        "error must name the offending var: {msg}"
    );
}

#[test]
fn zero_control_timeout_is_rejected() {
    let err = from_map(&[("BGE_ROUTER_CONTROL_TIMEOUT_MS", "0")]).unwrap_err();
    let msg = err.message();
    assert!(
        msg.contains("BGE_ROUTER_CONTROL_TIMEOUT_MS"),
        "error must name the offending var: {msg}"
    );
}

#[test]
fn non_numeric_hedge_delay_is_rejected() {
    let err = from_map(&[("BGE_ROUTER_HEDGE_DELAY_MS", "abc")]).unwrap_err();
    let msg = err.message();
    assert!(msg.contains("BGE_ROUTER_HEDGE_DELAY_MS"), "{msg}");
}

#[test]
fn zero_legacy_budget_is_rejected_as_hedge_delay() {
    let err = from_map(&[("BGE_ROUTER_FALLBACK_BUDGET_MS", "0")]).unwrap_err();
    assert_eq!(err, ConfigError::Zero(NumberVar::HedgeDelayMs));
    assert_eq!(err.cause(), None);
    assert_eq!(
        err.message(),
        "invalid BGE_ROUTER_HEDGE_DELAY_MS: must be > 0 (got 0)"
    );
    // It does not matter where a hedge delay is set.
    let both = [
        ("BGE_ROUTER_FALLBACK_BUDGET_MS", "0"),
        ("BGE_ROUTER_HEDGE_DELAY_MS", "10"),
    ];
    assert!(from_map(&both).is_ok());
}

#[test]
fn every_number_variable_is_validated() {
    let vars = [
        NumberVar::DnsRefreshSecs,
        NumberVar::HealthPollSecs,
        NumberVar::HeartbeatSecs,
        NumberVar::FallbackBudgetMs,
        NumberVar::HedgeDelayMs,
        NumberVar::ControlTimeoutMs,
    ];
    for var in vars {
        for (bad, fault) in [
            ("", NumberFault::Empty),
            ("+", NumberFault::InvalidDigit),
            ("-1", NumberFault::InvalidDigit),
            ("1.5", NumberFault::InvalidDigit),
            (" 5", NumberFault::InvalidDigit),
            ("5s", NumberFault::InvalidDigit),
            ("18446744073709551616", NumberFault::TooLarge),
        ] {
            let err = from_map(&[(var.key(), bad)]).unwrap_err();
            assert_eq!(err, ConfigError::NotANumber(var, fault), "{bad}");
            assert_eq!(
                err.message(),
                format!("invalid {}: expected a non-negative integer", var.key())
            );
            let cause = bad.parse::<u64>().unwrap_err().to_string();
            assert_eq!(err.cause(), Some(cause.as_str()), "{bad}");
        }
    }
}

#[test]
fn partial_tls_is_rejected() {
    for key in ["BGE_ROUTER_TLS_CERT_PATH", "BGE_ROUTER_TLS_KEY_PATH"] {
        let err = from_map(&[(key, "/tls/some.pem")]).unwrap_err();
        assert_eq!(err, ConfigError::PartialTls);
        assert_eq!(
            err.message(),
            "TLS misconfiguration: BGE_ROUTER_TLS_CERT_PATH and \
             BGE_ROUTER_TLS_KEY_PATH must both be set or both be absent"
        );
    }
}

#[test]
fn first_error_is_reported() {
    let err = from_map(&[
        ("BGE_ROUTER_CONTROL_TIMEOUT_MS", "x"),
        ("BGE_ROUTER_HEDGE_DELAY_MS", "0"),
        ("BGE_ROUTER_TLS_KEY_PATH", "/tls/key.pem"),
    ])
    .unwrap_err();
    assert_eq!(err, ConfigError::Zero(NumberVar::HedgeDelayMs));
}

#[test]
fn numbers_are_read_with_their_defaults() {
    let some = |text: &str| Some(text.to_string());
    let var = NumberVar::HealthPollSecs;
    assert_eq!(parse_u64(var, 5, &None), Ok(5));
    assert_eq!(parse_u64(var, 5, &some("0")), Ok(0));
    assert_eq!(parse_u64(var, 5, &some("007")), Ok(7));
    assert_eq!(
        parse_u64(var, 5, &some("18446744073709551615")),
        Ok(u64::MAX)
    );
    assert_eq!(
        parse_u64(var, 5, &some("ten")),
        Err(ConfigError::NotANumber(var, NumberFault::InvalidDigit))
    );
    assert_eq!(parse_optional_u64(var, &None), Ok(None));
    assert_eq!(parse_optional_u64(var, &some("12")), Ok(Some(12)));
    assert_eq!(
        parse_optional_u64(var, &some("1_000")),
        Err(ConfigError::NotANumber(var, NumberFault::InvalidDigit))
    );
}

#[test]
fn environment_makes_the_same_configuration() {
    let lookup = |key: &str| match key {
        "BGE_ROUTER_GPU_DNS" => Some("gpu.somewhere".to_string()),
        "BGE_ROUTER_HEDGE_DELAY_MS" => Some("40".to_string()),
        _ => None,
    };
    let env = Environment::from_lookup(&lookup);
    assert_eq!(env.gpu_dns.as_deref(), Some("gpu.somewhere"));
    assert!(env.cpu_dns.is_none());
    let cfg = Config::from_environment(env).unwrap();
    assert_eq!(cfg.gpu_dns, "gpu.somewhere");
    assert_eq!(cfg.hedge_delay, Duration::from_millis(40));
}

#[test]
fn configuration_clones_every_field() {
    let cfg = from_map(&[
        ("BGE_ROUTER_GPU_DNS", "gpu.test"),
        ("BGE_ROUTER_HEARTBEAT_SECS", "3"),
        ("BGE_ROUTER_UPSTREAM_TLS", "yes"),
        ("BGE_ROUTER_UPSTREAM_CA_BUNDLE", "/tls/ca.pem"),
    ])
    .unwrap();
    assert_eq!(format!("{:?}", cfg.clone()), format!("{cfg:?}"));
}
