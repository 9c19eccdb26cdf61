//! Plans, races and sequences.

use std::time::Instant;

use bge_router::config::Config;
use bge_router::error::AppError;
use bge_router::router::fallback::{
    attempt_warning, first_attempt, is_winner, route, LoserStatus, Plan, Race, RaceEvent, RaceStep,
    Reply, SequenceStep, Stage, Timed,
};
use bge_router::state::{client_outcome, client_settings, AppState, StateError};
use bge_router::time::Duration;
use bge_router::upstream::discovery::{refresh, ResolveResult};
use bge_router::upstream::health::{
    poll_result, record_polls, BgeMHealthResponse, HealthReply, WorkersField,
};
use bge_router::upstream::snapshot::{
    PoolSnapshot, PoolType, UpstreamInfo, UpstreamScheme, UpstreamStatus,
};

const GPU: &str = "10.0.0.1:8081";
const CPU: &str = "10.0.1.1:8081";

fn config() -> Config {
    Config::from_lookup(|key: &str| match key {
        "BGE_ROUTER_HEDGE_DELAY_MS" => Some("20".to_string()),
        "BGE_ROUTER_CONTROL_TIMEOUT_MS" => Some("100".to_string()),
        _ => None,
    })
    .expect("test config must build")
}

fn upstream(addr: &str, pool_type: PoolType, status: UpstreamStatus) -> UpstreamInfo {
    UpstreamInfo {
        addr: addr.to_string(),
        pool_type,
        status,
        queue_depth: 0,
        live_workers: 1,
        last_seen: Instant::now(),
    }
}

fn snapshot(gpu: UpstreamStatus, cpu: UpstreamStatus) -> PoolSnapshot {
    PoolSnapshot {
        gpu: vec![upstream(GPU, PoolType::Gpu, gpu)],
        cpu: vec![upstream(CPU, PoolType::Cpu, cpu)],
        updated_at: Instant::now(),
    }
}

fn reply(status: u16, from: &'static str) -> Result<Reply<&'static str>, AppError> {
    Ok(Reply {
        status,
        response: from,
    })
}

fn broken() -> Result<Reply<&'static str>, AppError> {
    Err(AppError::Internal(anyhow::Error::msg("broken")))
}

fn waiting(step: RaceStep<&'static str>) -> Race<&'static str> {
    match step {
        RaceStep::Wait(race) => race,
        other => panic!("the race should go on: {other:?}"),
    }
}

fn fired(step: RaceStep<&'static str>) -> Race<&'static str> {
    match step {
        RaceStep::FireCpu(race) => race,
        other => panic!("the CPU upstream should be asked: {other:?}"),
    }
}

fn won(step: RaceStep<&'static str>) -> (PoolType, LoserStatus, &'static str) {
    match step {
        RaceStep::Won {
            winner,
            loser_status,
            result,
        } => (winner, loser_status, result.unwrap().response),
        other => panic!("the race should be won: {other:?}"),
    }
}

// ── plans ──────────────────────────────────────────────────────────────────

#[test]
fn inference_with_both_pools_is_raced() {
    let snap = snapshot(UpstreamStatus::Healthy, UpstreamStatus::Healthy);
    match route("/v1/embeddings", &config(), &snap).unwrap() {
        Plan::Race {
            gpu_addr,
            cpu_addr,
            delay,
        } => {
            assert_eq!(gpu_addr, GPU);
            assert_eq!(cpu_addr, CPU);
            assert_eq!(delay, Duration::from_millis(20));
        }
        other => panic!("{other:?}"),
    }
}

#[test]
fn inference_with_one_pool_is_sent_directly() {
    let only_cpu = snapshot(UpstreamStatus::Fail, UpstreamStatus::Healthy);
    match route("/v1/embeddings", &config(), &only_cpu).unwrap() {
        Plan::Direct { addr, pool_type } => {
            assert_eq!(addr, CPU);
            assert_eq!(pool_type, PoolType::Cpu);
        }
        other => panic!("{other:?}"),
    }
    let only_gpu = snapshot(UpstreamStatus::Healthy, UpstreamStatus::Unknown);
    match route("/v1/embeddings", &config(), &only_gpu).unwrap() {
        Plan::Direct { addr, pool_type } => {
            assert_eq!(addr, GPU);
            assert_eq!(pool_type, PoolType::Gpu);
        }
        other => panic!("{other:?}"),
    }
}

#[test]
fn control_plane_is_tried_in_sequence() {
    let snap = snapshot(UpstreamStatus::Healthy, UpstreamStatus::Healthy);
    match route("/health", &config(), &snap).unwrap() {
        Plan::Sequential {
            gpu,
            cpu,
            per_upstream,
        } => {
            assert_eq!(gpu.as_deref(), Some(GPU));
            assert_eq!(cpu.as_deref(), Some(CPU));
            assert_eq!(per_upstream, Duration::from_millis(100));
        }
        other => panic!("{other:?}"),
    }
    let only_cpu = snapshot(UpstreamStatus::Fail, UpstreamStatus::Healthy);
    match route("/v1/models", &config(), &only_cpu).unwrap() {
        Plan::Sequential { gpu, cpu, .. } => {
            assert_eq!(gpu, None);
            assert_eq!(cpu.as_deref(), Some(CPU));
        }
        other => panic!("{other:?}"),
    }
}

#[test]
fn nothing_routable_is_refused_with_503() {
    for path in ["/v1/embeddings", "/health"] {
        let snap = snapshot(UpstreamStatus::Fail, UpstreamStatus::Unknown);
        let err = route(path, &config(), &snap).unwrap_err();
        assert!(matches!(err, AppError::NoUpstreamAvailable));
        assert_eq!(err.status_code(), 503);
    }
}

#[test]
fn state_plans_with_the_current_pools() {
    let state = AppState::new(config(), None).expect("test state must build");
    assert_eq!(state.upstream_scheme(), UpstreamScheme::Http);
    assert_eq!(state.config.control_timeout, Duration::from_millis(100));
    assert!(state.plan("/v1/embeddings").is_err());
    refresh(
        &state.pool,
        &ResolveResult::Resolved(vec![GPU.to_string()]),
        &ResolveResult::Failed,
    );
    assert!(state.plan("/v1/embeddings").is_err());
    let report = BgeMHealthResponse {
        status: "idle".to_string(),
        workers: Some(WorkersField { live: 1 }),
        queue_depth: None,
    };
    let polled = HealthReply::Answered {
        http_status: 200,
        report: Some(report),
    };
    record_polls(&state.pool, &[poll_result(GPU.to_string(), polled)]);
    match state.plan("/v1/embeddings").unwrap() {
        Plan::Direct { addr, pool_type } => {
            assert_eq!(addr, GPU);
            assert_eq!(pool_type, PoolType::Gpu);
        }
        other => panic!("{other:?}"),
    }
}

#[test]
fn state_keeps_a_given_client() {
    let state = AppState::with_client(config(), reqwest::Client::new());
    assert!(state.pool.current().gpu.is_empty());
    assert_eq!(state.config.hedge_delay, Duration::from_millis(20));
}

#[test]
fn unusable_ca_bundle_builds_no_state() {
    let pem = b"-----BEGIN CERTIFICATE-----\nAAAA\n-----END CERTIFICATE-----\n";
    let err = AppState::new(config(), Some(pem)).unwrap_err();
    assert!(matches!(err, StateError::Client(_)));
    assert_eq!(err.message(), "building reqwest::Client");
}

#[test]
fn state_clones_share_their_pools() {
    let state = AppState::new(config(), None).expect("test state must build");
    let copy = state.clone();
    assert!(std::sync::Arc::ptr_eq(&state.pool, &copy.pool));
    assert!(std::sync::Arc::ptr_eq(&state.config, &copy.config));
}

#[test]
fn redirects_are_not_followed() {
    // A client shows its redirect policy where it is not the default one.
    assert!(!format!("{:?}", reqwest::Client::new()).contains("redirect_policy"));
    let state = AppState::new(config(), None).expect("test state must build");
    for client in [&state.client, &state.clone().client] {
        let shown = format!("{client:?}");
        assert!(shown.contains("redirect_policy"), "{shown}");
        assert!(shown.contains("Policy(None)"), "{shown}");
    }
}

fn some_error() -> reqwest::Error {
    reqwest::Client::new().get("not a url").build().unwrap_err()
}

#[test]
fn client_settings_take_in_the_ca_bundle() {
    assert!(client_settings(None).unwrap().build().is_ok());
    // A bundle that is no certificate shows up when the client is built.
    let pem = b"-----BEGIN CERTIFICATE-----\nAAAA\n-----END CERTIFICATE-----\n";
    let loaded = reqwest::Certificate::from_pem(pem);
    assert!(client_settings(Some(loaded)).unwrap().build().is_err());
    let refused = client_settings(Some(Err(some_error()))).unwrap_err();
    assert!(matches!(refused, StateError::CaBundle(_)));
}

#[test]
fn client_outcome_names_the_failed_build() {
    assert!(client_outcome(Ok(reqwest::Client::new())).is_ok());
    let failed = client_outcome(Err(some_error())).unwrap_err();
    assert!(matches!(failed, StateError::Client(_)));
}

#[test]
fn ca_bundle_errors_name_their_stage() {
    let cause = some_error();
    assert_eq!(
        StateError::CaBundle(cause).message(),
        "upstream CA bundle is not valid PEM"
    );
}

// ── winners ────────────────────────────────────────────────────────────────

#[test]
fn everything_outside_5xx_wins() {
    for status in [100, 200, 302, 400, 404, 429, 499, 600, 999] {
        assert!(is_winner(&reply(status, "")), "{status}");
    }
    for status in [500, 502, 503, 599] {
        assert!(!is_winner(&reply(status, "")), "{status}");
    }
    assert!(!is_winner(&broken()));
}

#[test]
fn loser_names_for_logs() {
    assert_eq!(LoserStatus::NotStarted.as_str(), "not_started");
    assert_eq!(LoserStatus::Cancelled.as_str(), "cancelled");
    assert_eq!(LoserStatus::Errored.as_str(), "errored");
}

// ── races ──────────────────────────────────────────────────────────────────

#[test]
fn race_starts_with_the_gpu_alone() {
    let race: Race<&str> = Race::start();
    assert!(race.awaits_gpu());
    assert!(race.awaits_hedge());
    assert!(!race.awaits_cpu());
    let race = fired(race.step(RaceEvent::HedgeElapsed));
    assert!(race.awaits_gpu());
    assert!(!race.awaits_hedge());
    assert!(race.awaits_cpu());
}

#[test]
fn fast_gpu_wins_before_the_cpu_is_asked() {
    let step = Race::start().step(RaceEvent::GpuDone(reply(200, "gpu")));
    assert_eq!(won(step), (PoolType::Gpu, LoserStatus::NotStarted, "gpu"));
}

#[test]
fn fast_cpu_wins_and_gpu_is_cancelled() {
    let race = fired(Race::start().step(RaceEvent::HedgeElapsed));
    let step = race.step(RaceEvent::CpuDone(reply(200, "cpu")));
    assert_eq!(won(step), (PoolType::Cpu, LoserStatus::Cancelled, "cpu"));
}

#[test]
fn gpu_wins_after_the_hedge_and_cpu_is_cancelled() {
    let race = fired(Race::start().step(RaceEvent::HedgeElapsed));
    let step = race.step(RaceEvent::GpuDone(reply(404, "gpu")));
    assert_eq!(won(step), (PoolType::Gpu, LoserStatus::Cancelled, "gpu"));
}

#[test]
fn gpu_failure_waits_for_the_hedge() {
    let race = waiting(Race::start().step(RaceEvent::GpuDone(broken())));
    assert!(!race.awaits_gpu());
    assert!(race.awaits_hedge());
    assert!(!race.awaits_cpu());
    let race = fired(race.step(RaceEvent::HedgeElapsed));
    let step = race.step(RaceEvent::CpuDone(reply(200, "cpu")));
    assert_eq!(won(step), (PoolType::Cpu, LoserStatus::Errored, "cpu"));
}

#[test]
fn gpu_wins_after_the_cpu_has_failed() {
    let race = fired(Race::start().step(RaceEvent::HedgeElapsed));
    let race = waiting(race.step(RaceEvent::CpuDone(reply(500, "cpu"))));
    assert!(race.awaits_gpu());
    assert!(!race.awaits_cpu());
    let step = race.step(RaceEvent::GpuDone(reply(200, "gpu")));
    assert_eq!(won(step), (PoolType::Gpu, LoserStatus::Errored, "gpu"));
}

#[test]
fn both_failures_return_the_gpu_result() {
    let race = fired(Race::start().step(RaceEvent::HedgeElapsed));
    let race = waiting(race.step(RaceEvent::GpuDone(reply(500, "gpu"))));
    match race.step(RaceEvent::CpuDone(reply(500, "cpu"))) {
        RaceStep::BothFailed(result) => assert_eq!(result.unwrap().response, "gpu"),
        other => panic!("{other:?}"),
    }
    let race = fired(Race::start().step(RaceEvent::HedgeElapsed));
    let race = waiting(race.step(RaceEvent::CpuDone(reply(503, "cpu"))));
    match race.step(RaceEvent::GpuDone(broken())) {
        RaceStep::BothFailed(result) => {
            assert_eq!(result.unwrap_err().message(), "internal error: broken");
        }
        other => panic!("{other:?}"),
    }
}

// ── sequences ──────────────────────────────────────────────────────────────

#[test]
fn sequence_starts_with_the_gpu_if_there_is_one() {
    let (addr, pool_type, stage) =
        first_attempt(Some(GPU.to_string()), Some(CPU.to_string())).unwrap();
    assert_eq!((addr.as_str(), pool_type), (GPU, PoolType::Gpu));
    assert!(matches!(stage, Stage::Gpu { cpu: Some(_) }));
    let (addr, pool_type, stage) = first_attempt(None, Some(CPU.to_string())).unwrap();
    assert_eq!((addr.as_str(), pool_type), (CPU, PoolType::Cpu));
    assert!(matches!(stage, Stage::Cpu));
    assert!(first_attempt(None, None).is_none());
}

#[test]
fn gpu_failure_falls_back_to_the_cpu() {
    let outcomes = [
        Timed::TimedOut,
        Timed::Finished(broken()),
        Timed::Finished(reply(503, "gpu")),
    ];
    for outcome in outcomes {
        let stage = Stage::Gpu {
            cpu: Some(CPU.to_string()),
        };
        match stage.step(outcome) {
            SequenceStep::TryCpu(addr) => assert_eq!(addr, CPU),
            other => panic!("{other:?}"),
        }
    }
}

#[test]
fn gpu_answer_settles_the_request() {
    for status in [200, 404] {
        let stage = Stage::Gpu {
            cpu: Some(CPU.to_string()),
        };
        match stage.step(Timed::Finished(reply(status, "gpu"))) {
            SequenceStep::Done(result) => assert_eq!(result.unwrap().status, status),
            other => panic!("{other:?}"),
        }
    }
}

#[test]
fn gpu_failure_without_a_cpu_is_refused() {
    let stage = Stage::Gpu { cpu: None };
    match stage.step(Timed::Finished(reply(500, "gpu"))) {
        SequenceStep::Done(Err(e)) => assert_eq!(e.status_code(), 503),
        other => panic!("{other:?}"),
    }
}

#[test]
fn cpu_outcome_is_final() {
    match Stage::Cpu.step(Timed::Finished(reply(500, "cpu"))) {
        SequenceStep::Done(result) => assert_eq!(result.unwrap().status, 500),
        other => panic!("{other:?}"),
    }
    match Stage::Cpu.step(Timed::<&str>::TimedOut) {
        SequenceStep::Done(Err(e)) => assert_eq!(e.status_code(), 503),
        other => panic!("{other:?}"),
    }
}

#[test]
fn setbacks_are_warned_of() {
    let gpu = |outcome: &Timed<&'static str>| attempt_warning(PoolType::Gpu, outcome);
    let cpu = |outcome: &Timed<&'static str>| attempt_warning(PoolType::Cpu, outcome);
    assert_eq!(gpu(&Timed::Finished(reply(200, ""))), None);
    assert_eq!(
        gpu(&Timed::Finished(reply(500, ""))),
        Some("GPU upstream returned 5xx, attempting CPU fallback")
    );
    assert_eq!(
        gpu(&Timed::Finished(broken())),
        Some("GPU upstream error, attempting CPU fallback")
    );
    assert_eq!(
        gpu(&Timed::TimedOut),
        Some("GPU upstream timed out within fallback budget, attempting CPU fallback")
    );
    assert_eq!(cpu(&Timed::Finished(reply(500, ""))), None);
    assert_eq!(cpu(&Timed::Finished(broken())), None);
    assert_eq!(
        cpu(&Timed::TimedOut),
        Some("CPU upstream timed out within control-plane budget")
    );
}
