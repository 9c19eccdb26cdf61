//! Per-route fallback: which upstreams a request is sent to, when, and whose
//! answer the client gets.
//!
//! Inference requests are raced: the GPU upstream is asked first; when the
//! hedge delay has passed without an answer that settles the request, the CPU
//! upstream is asked too; the first answer outside the 5xx class wins.
//!
//! Control-plane requests are tried in sequence, GPU then CPU, each under a
//! hard timeout.
//!
//! Sending, waiting and cancelling are the caller's. [`Race`] and [`Stage`]
//! take in what happened and say what comes next.

use vstd::prelude::*;

use crate::config::Config;
use crate::error::AppError;
use crate::router::policy;
use crate::router::policy::{pick_cpu, pick_gpu};
use crate::router::route_policy;
use crate::router::route_policy::RoutePolicy;
use crate::time::Duration;
use crate::upstream::snapshot::{PoolSnapshot, PoolType, UpstreamInfo, UpstreamStatus};

verus! {

/// How a request is to be served.
#[derive(Debug)]
pub enum Plan {
    /// Ask one upstream, without a timeout, and return whatever comes back.
    Direct {
        /// The upstream's address.
        addr: String,
        /// Its pool.
        pool_type: PoolType,
    },
    /// Race the CPU upstream against the GPU upstream, `delay` after it.
    Race {
        /// The GPU upstream's address.
        gpu_addr: String,
        /// The CPU upstream's address.
        cpu_addr: String,
        /// The CPU upstream's handicap.
        delay: Duration,
    },
    /// Try the GPU upstream and then the CPU upstream, as far as there are
    /// any; there is at least one.
    Sequential {
        /// The GPU upstream's address.
        gpu: Option<String>,
        /// The CPU upstream's address.
        cpu: Option<String>,
        /// How long each of them has to answer.
        per_upstream: Duration,
    },
}

/// The address alone of a picked upstream.
pub open spec fn target_addr(target: Option<(Seq<char>, PoolType)>) -> Option<Seq<char>> {
    match target {
        Some((addr, _)) => Some(addr),
        None => None,
    }
}

/// The characters of an optional address.
pub open spec fn addr_view(addr: Option<String>) -> Option<Seq<char>> {
    match addr {
        Some(a) => Some(a@),
        None => None,
    }
}

impl Plan {
    /// This plan serves a request under `policy` when the best GPU and CPU
    /// upstreams are at `gpu` and `cpu`.
    pub open spec fn serves(
        self,
        policy: RoutePolicy,
        gpu: Option<Seq<char>>,
        cpu: Option<Seq<char>>,
    ) -> bool {
        match policy {
            RoutePolicy::Hedged { delay } => match (gpu, cpu) {
                (Some(g), Some(c)) => self matches Plan::Race { gpu_addr, cpu_addr, delay: d }
                    && gpu_addr@ == g && cpu_addr@ == c && d == delay,
                (Some(g), None) => self matches Plan::Direct { addr, pool_type } && addr@ == g
                    && pool_type == PoolType::Gpu,
                (None, Some(c)) => self matches Plan::Direct { addr, pool_type } && addr@ == c
                    && pool_type == PoolType::Cpu,
                (None, None) => false,
            },
            RoutePolicy::SequentialTimeout { per_upstream } => {
                &&& gpu is Some || cpu is Some
                &&& self matches Plan::Sequential { gpu: pg, cpu: pc, per_upstream: pt }
                    && addr_view(pg) == gpu && addr_view(pc) == cpu && pt == per_upstream
            },
        }
    }
}

/// This is how a request for the path is served, given the configuration and
/// the state of the pools.
pub open spec fn is_planned(
    path_and_query: Seq<char>,
    config: Config,
    snapshot: PoolSnapshot,
    plan: Result<Plan, AppError>,
) -> bool {
    let gpu = target_addr(policy::pool_target(snapshot.gpu@, PoolType::Gpu));
    let cpu = target_addr(policy::pool_target(snapshot.cpu@, PoolType::Cpu));
    match plan {
        Ok(p) => p.serves(RoutePolicy::of_path(path_and_query, config), gpu, cpu),
        Err(e) => e == AppError::NoUpstreamAvailable && gpu is None && cpu is None,
    }
}

/// Decide how to serve a request, by its path and the state of the pools.
///
/// # Errors
///
/// Returns [`AppError::NoUpstreamAvailable`] when no upstream is routable.
pub fn route(path_and_query: &str, config: &Config, snapshot: &PoolSnapshot) -> (plan: Result<
    Plan,
    AppError,
>)
    ensures
        is_planned(path_and_query@, *config, *snapshot, plan),
{
    let strategy = RoutePolicy::for_path(path_and_query, config);
    let gpu_candidate = pick_gpu(snapshot);
    let cpu_candidate = pick_cpu(snapshot);
    match strategy {
        RoutePolicy::Hedged { delay } => match (gpu_candidate, cpu_candidate) {
            (None, None) => Err(AppError::NoUpstreamAvailable),
            (None, Some((cpu, _))) => Ok(Plan::Direct { addr: cpu, pool_type: PoolType::Cpu }),
            (Some((gpu, _)), None) => Ok(Plan::Direct { addr: gpu, pool_type: PoolType::Gpu }),
            (Some((gpu_addr, _)), Some((cpu_addr, _))) => {
                Ok(Plan::Race { gpu_addr, cpu_addr, delay })
            },
        },
        RoutePolicy::SequentialTimeout { per_upstream } => {
            let gpu = match gpu_candidate {
                Some((addr, _)) => Some(addr),
                None => None,
            };
            let cpu = match cpu_candidate {
                Some((addr, _)) => Some(addr),
                None => None,
            };
            if gpu.is_none() && cpu.is_none() {
                Err(AppError::NoUpstreamAvailable)
            } else {
                Ok(Plan::Sequential { gpu, cpu, per_upstream })
            }
        },
    }
}

/// An upstream's response, and its HTTP status.
#[derive(Debug)]
pub struct Reply<R> {
    /// The HTTP status.
    pub status: u16,
    /// The response itself.
    pub response: R,
}

/// An HTTP status of the 5xx class.
pub open spec fn is_server_error(status: u16) -> bool {
    500 <= status < 600
}

/// A result that settles a request: any response outside the 5xx class.
pub open spec fn wins<R>(result: Result<Reply<R>, AppError>) -> bool {
    result matches Ok(reply) && !is_server_error(reply.status)
}

/// Whether a result settles a request. A 4xx response does: it is the
/// client's error, and another upstream would say the same.
pub fn is_winner<R>(result: &Result<Reply<R>, AppError>) -> (winner: bool)
    ensures
        winner == wins(*result),
        winner <==> (*result matches Ok(reply) && !(500 <= reply.status <= 599)),
{
    match result {
        Ok(reply) => reply.status < 500 || reply.status >= 600,
        Err(_) => false,
    }
}

/// What became of the upstream that lost a race.
#[derive(Debug, Clone, Copy, PartialEq, Eq, Structural)]
pub enum LoserStatus {
    /// It was never asked.
    NotStarted,
    /// It was still working; its request is dropped.
    Cancelled,
    /// It had already failed.
    Errored,
}

impl LoserStatus {
    /// The name in log lines.
    pub open spec fn label(self) -> Seq<char> {
        match self {
            LoserStatus::NotStarted => "not_started"@,
            LoserStatus::Cancelled => "cancelled"@,
            LoserStatus::Errored => "errored"@,
        }
    }

    /// The name in log lines.
    pub fn as_str(self) -> (label: &'static str)
        ensures
            label@ == self.label(),
    {
        match self {
            LoserStatus::NotStarted => "not_started",
            LoserStatus::Cancelled => "cancelled",
            LoserStatus::Errored => "errored",
        }
    }
}

/// How far one side of a race has come.
#[derive(Debug)]
pub enum Leg<R> {
    /// Not asked yet.
    Waiting,
    /// Asked, and not answered yet.
    Running,
    /// Answered, and not with a win.
    Lost(Result<Reply<R>, AppError>),
}

/// A race that nobody has won yet.
#[derive(Debug)]
pub struct Race<R> {
    /// The GPU side, which is asked at once.
    pub gpu: Leg<R>,
    /// The CPU side, which is asked once the hedge delay has passed.
    pub cpu: Leg<R>,
}

/// What can happen in a race.
#[derive(Debug)]
pub enum RaceEvent<R> {
    /// The hedge delay has passed.
    HedgeElapsed,
    /// The GPU upstream answered, or failed to.
    GpuDone(Result<Reply<R>, AppError>),
    /// The CPU upstream answered, or failed to.
    CpuDone(Result<Reply<R>, AppError>),
}

/// What a race calls for next.
#[derive(Debug)]
pub enum RaceStep<R> {
    /// Wait for the next event.
    Wait(Race<R>),
    /// Ask the CPU upstream, then wait for the next event.
    FireCpu(Race<R>),
    /// Return the winner's response, and drop whatever the loser still does.
    Won {
        /// Whose response it is.
        winner: PoolType,
        /// What became of the other side.
        loser_status: LoserStatus,
        /// The response.
        result: Result<Reply<R>, AppError>,
    },
    /// Return the GPU side's result: both sides lost.
    BothFailed(Result<Reply<R>, AppError>),
}

impl<R> Race<R> {
    /// The GPU side was asked, neither side has won, and not both have lost.
    pub open spec fn inv(self) -> bool {
        &&& self.gpu !is Waiting
        &&& self.gpu matches Leg::Lost(r) ==> !wins(r)
        &&& self.cpu matches Leg::Lost(r) ==> !wins(r)
        &&& !(self.gpu is Lost && self.cpu is Lost)
    }

    /// The event can happen now: a side that was asked answers once, and the
    /// hedge delay passes once.
    pub open spec fn expects(self, event: RaceEvent<R>) -> bool {
        match event {
            RaceEvent::HedgeElapsed => self.cpu is Waiting,
            RaceEvent::GpuDone(_) => self.gpu is Running,
            RaceEvent::CpuDone(_) => self.cpu is Running,
        }
    }

    /// What an event leads to.
    pub open spec fn after(self, event: RaceEvent<R>) -> RaceStep<R> {
        match event {
            RaceEvent::HedgeElapsed => RaceStep::FireCpu(Race { gpu: self.gpu, cpu: Leg::Running }),
            RaceEvent::GpuDone(result) => if wins(result) {
                RaceStep::Won {
                    winner: PoolType::Gpu,
                    loser_status: match self.cpu {
                        Leg::Waiting => LoserStatus::NotStarted,
                        Leg::Running => LoserStatus::Cancelled,
                        Leg::Lost(_) => LoserStatus::Errored,
                    },
                    result,
                }
            } else if self.cpu is Lost {
                RaceStep::BothFailed(result)
            } else {
                RaceStep::Wait(Race { gpu: Leg::Lost(result), cpu: self.cpu })
            },
            RaceEvent::CpuDone(result) => if wins(result) {
                RaceStep::Won {
                    winner: PoolType::Cpu,
                    loser_status: if self.gpu is Lost {
                        LoserStatus::Errored
                    } else {
                        LoserStatus::Cancelled
                    },
                    result,
                }
            } else {
                match self.gpu {
                    Leg::Lost(gpu_result) => RaceStep::BothFailed(gpu_result),
                    _ => RaceStep::Wait(Race { gpu: self.gpu, cpu: Leg::Lost(result) }),
                }
            },
        }
    }

    /// Start a race: the GPU upstream is asked now.
    pub fn start() -> (race: Self)
        ensures
            race == Self::at_start(),
            race.inv(),
    {
        Race { gpu: Leg::Running, cpu: Leg::Waiting }
    }

    /// A race that has just started.
    pub open spec fn at_start() -> Self {
        Race { gpu: Leg::Running, cpu: Leg::Waiting }
    }

    /// Whether the GPU upstream's answer is still awaited.
    pub fn awaits_gpu(&self) -> (awaited: bool)
        ensures
            awaited == (self.gpu is Running),
    {
        match self.gpu {
            Leg::Running => true,
            _ => false,
        }
    }

    /// Whether the CPU upstream's answer is awaited.
    pub fn awaits_cpu(&self) -> (awaited: bool)
        ensures
            awaited == (self.cpu is Running),
    {
        match self.cpu {
            Leg::Running => true,
            _ => false,
        }
    }

    /// Whether the end of the hedge delay is still awaited.
    pub fn awaits_hedge(&self) -> (awaited: bool)
        ensures
            awaited == (self.cpu is Waiting),
    {
        match self.cpu {
            Leg::Waiting => true,
            _ => false,
        }
    }

    /// Take in an event.
    pub fn step(self, event: RaceEvent<R>) -> (next: RaceStep<R>)
        requires
            self.inv(),
            self.expects(event),
        ensures
            next == self.after(event),
            match next {
                RaceStep::Wait(race) => race.inv(),
                RaceStep::FireCpu(race) => race.inv(),
                _ => true,
            },
    {
        match event {
            RaceEvent::HedgeElapsed => RaceStep::FireCpu(Race { gpu: self.gpu, cpu: Leg::Running }),
            RaceEvent::GpuDone(result) => {
                if is_winner(&result) {
                    let loser_status = match self.cpu {
                        Leg::Waiting => LoserStatus::NotStarted,
                        Leg::Running => LoserStatus::Cancelled,
                        Leg::Lost(_) => LoserStatus::Errored,
                    };
                    RaceStep::Won { winner: PoolType::Gpu, loser_status, result }
                } else {
                    match self.cpu {
                        Leg::Lost(_) => RaceStep::BothFailed(result),
                        cpu => RaceStep::Wait(Race { gpu: Leg::Lost(result), cpu }),
                    }
                }
            },
            RaceEvent::CpuDone(result) => {
                match self.gpu {
                    Leg::Lost(gpu_result) => {
                        if is_winner(&result) {
                            RaceStep::Won {
                                winner: PoolType::Cpu,
                                loser_status: LoserStatus::Errored,
                                result,
                            }
                        } else {
                            RaceStep::BothFailed(gpu_result)
                        }
                    },
                    gpu => {
                        if is_winner(&result) {
                            RaceStep::Won {
                                winner: PoolType::Cpu,
                                loser_status: LoserStatus::Cancelled,
                                result,
                            }
                        } else {
                            RaceStep::Wait(Race { gpu, cpu: Leg::Lost(result) })
                        }
                    },
                }
            },
        }
    }
}

/// How one attempt under a timeout ended.
#[derive(Debug)]
pub enum Timed<R> {
    /// The upstream answered in time, or failed to.
    Finished(Result<Reply<R>, AppError>),
    /// The upstream did not answer in time.
    TimedOut,
}

/// What is logged of an attempt that does not settle the request: nothing of a
/// win, nor of what the CPU upstream returns in time.
pub open spec fn setback<R>(pool_type: PoolType, outcome: Timed<R>) -> Option<Seq<char>> {
    match pool_type {
        PoolType::Gpu => match outcome {
            Timed::Finished(Ok(reply)) => if is_server_error(reply.status) {
                Some("GPU upstream returned 5xx, attempting CPU fallback"@)
            } else {
                None
            },
            Timed::Finished(Err(_)) => Some("GPU upstream error, attempting CPU fallback"@),
            Timed::TimedOut => Some(
                "GPU upstream timed out within fallback budget, attempting CPU fallback"@,
            ),
        },
        PoolType::Cpu => match outcome {
            Timed::Finished(_) => None,
            Timed::TimedOut => Some("CPU upstream timed out within control-plane budget"@),
        },
    }
}

/// The warning to log of an attempt, if any.
pub fn attempt_warning<R>(pool_type: PoolType, outcome: &Timed<R>) -> (warning: Option<
    &'static str,
>)
    ensures
        match warning {
            Some(w) => setback(pool_type, *outcome) == Some(w@),
            None => setback(pool_type, *outcome) is None,
        },
{
    match pool_type {
        PoolType::Gpu => match outcome {
            Timed::Finished(result) => {
                if is_winner(result) {
                    return None;
                }
                match result {
                    Ok(_) => Some("GPU upstream returned 5xx, attempting CPU fallback"),
                    Err(_) => Some("GPU upstream error, attempting CPU fallback"),
                }
            },
            Timed::TimedOut => Some(
                "GPU upstream timed out within fallback budget, attempting CPU fallback",
            ),
        },
        PoolType::Cpu => match outcome {
            Timed::Finished(_) => None,
            Timed::TimedOut => Some("CPU upstream timed out within control-plane budget"),
        },
    }
}

/// Where a sequence of attempts stands: which upstream is being asked.
#[derive(Debug)]
pub enum Stage {
    /// The GPU upstream; `cpu` is the upstream to fall back to.
    Gpu {
        /// The CPU upstream's address, if there is one.
        cpu: Option<String>,
    },
    /// The CPU upstream.
    Cpu,
}

/// What a sequence of attempts calls for next.
#[derive(Debug)]
pub enum SequenceStep<R> {
    /// Ask the CPU upstream at this address; the stage is then [`Stage::Cpu`].
    TryCpu(String),
    /// Return this to the client.
    Done(Result<Reply<R>, AppError>),
}

impl Stage {
    /// What the end of the current attempt leads to.
    pub open spec fn after<R>(self, outcome: Timed<R>) -> SequenceStep<R> {
        match self {
            Stage::Gpu { cpu } => match outcome {
                Timed::Finished(result) if wins(result) => SequenceStep::Done(result),
                _ => match cpu {
                    Some(addr) => SequenceStep::TryCpu(addr),
                    None => SequenceStep::Done(Err(AppError::NoUpstreamAvailable)),
                },
            },
            Stage::Cpu => match outcome {
                Timed::Finished(result) => SequenceStep::Done(result),
                Timed::TimedOut => SequenceStep::Done(Err(AppError::NoUpstreamAvailable)),
            },
        }
    }

    /// How many attempts there are at most, the current one included.
    pub open spec fn attempts_left(self) -> nat {
        match self {
            Stage::Gpu { cpu } => if cpu is Some {
                2
            } else {
                1
            },
            Stage::Cpu => 1,
        }
    }

    /// Take in how the current attempt ended.
    pub fn step<R>(self, outcome: Timed<R>) -> (next: SequenceStep<R>)
        ensures
            next == self.after(outcome),
    {
        match self {
            Stage::Gpu { cpu } => {
                if let Timed::Finished(result) = outcome {
                    if is_winner(&result) {
                        return SequenceStep::Done(result);
                    }
                }
                match cpu {
                    Some(addr) => SequenceStep::TryCpu(addr),
                    None => SequenceStep::Done(Err(AppError::NoUpstreamAvailable)),
                }
            },
            Stage::Cpu => match outcome {
                Timed::Finished(result) => SequenceStep::Done(result),
                Timed::TimedOut => SequenceStep::Done(Err(AppError::NoUpstreamAvailable)),
            },
        }
    }
}

/// The first attempt of a sequence: the upstream to ask and the stage that
/// asking it is.
pub fn first_attempt(gpu: Option<String>, cpu: Option<String>) -> (first: Option<
    (String, PoolType, Stage),
>)
    ensures
        first == match gpu {
            Some(g) => Some((g, PoolType::Gpu, Stage::Gpu { cpu })),
            None => match cpu {
                Some(c) => Some((c, PoolType::Cpu, Stage::Cpu)),
                None => None,
            },
        },
{
    match gpu {
        Some(g) => Some((g, PoolType::Gpu, Stage::Gpu { cpu })),
        None => match cpu {
            Some(c) => Some((c, PoolType::Cpu, Stage::Cpu)),
            None => None,
        },
    }
}

/// The result that an event brings, if it brings one.
pub open spec fn event_result<R>(event: RaceEvent<R>) -> Option<Result<Reply<R>, AppError>> {
    match event {
        RaceEvent::HedgeElapsed => None,
        RaceEvent::GpuDone(r) => Some(r),
        RaceEvent::CpuDone(r) => Some(r),
    }
}

/// The event brings a result that settles the request.
pub open spec fn settles<R>(event: RaceEvent<R>) -> bool {
    event_result(event) matches Some(r) && wins(r)
}

/// The race goes on after this step, and with what.
pub open spec fn goes_on<R>(step: RaceStep<R>) -> Option<Race<R>> {
    match step {
        RaceStep::Wait(race) => Some(race),
        RaceStep::FireCpu(race) => Some(race),
        _ => None,
    }
}

/// Where a race stands after a series of events.
pub open spec fn race_run<R>(race: Race<R>, events: Seq<RaceEvent<R>>) -> RaceStep<R>
    decreases events.len(),
{
    if events.len() == 0 {
        RaceStep::Wait(race)
    } else {
        let step = race.after(events[0]);
        match goes_on(step) {
            Some(next) => race_run(next, events.skip(1)),
            None => step,
        }
    }
}

/// A series of events that can happen: each is expected when it happens, and
/// nothing happens after the race is over.
pub open spec fn race_trace<R>(race: Race<R>, events: Seq<RaceEvent<R>>) -> bool
    decreases events.len(),
{
    events.len() > 0 ==> {
        &&& race.expects(events[0])
        &&& match goes_on(race.after(events[0])) {
            Some(next) => race_trace(next, events.skip(1)),
            None => events.len() == 1,
        }
    }
}

/// A race keeps its invariant as long as it goes on.
pub proof fn race_keeps_invariant<R>(race: Race<R>, event: RaceEvent<R>)
    requires
        race.inv(),
        race.expects(event),
    ensures
        goes_on(race.after(event)) matches Some(next) ==> next.inv(),
{
}

/// The first response outside the 5xx class wins, from whichever side: when
/// the last event of a race brings one, the race is won with it, and no
/// earlier event had brought one.
pub proof fn first_success_wins<R>(race: Race<R>, events: Seq<RaceEvent<R>>)
    requires
        race.inv(),
        race_trace(race, events),
        events.len() > 0,
        settles(events.last()),
    ensures
        race_run(race, events) matches RaceStep::Won { winner, result, .. } && {
            &&& Some(result) == event_result(events.last())
            &&& winner == (if events.last() is GpuDone {
                PoolType::Gpu
            } else {
                PoolType::Cpu
            })
        },
        forall|i: int| 0 <= i < events.len() - 1 ==> !settles(#[trigger] events[i]),
    decreases events.len(),
{
    let step = race.after(events[0]);
    match goes_on(step) {
        Some(next) => {
            let rest = events.skip(1);
            race_keeps_invariant(race, events[0]);
            if rest.len() == 0 {
                assert(events.last() == events[0]);
            } else {
                assert(rest.last() == events.last());
                first_success_wins(next, rest);
                assert forall|i: int| 0 <= i < events.len() - 1 implies !settles(
                    #[trigger] events[i],
                ) by {
                    if i > 0 {
                        assert(rest[i - 1] == events[i]);
                    }
                }
            }
        },
        None => {},
    }
}

/// A race ends with a failure only when both sides have failed, and what is
/// returned is then the GPU side's result, whichever side failed first.
pub proof fn double_failure_returns_gpu_result<R>(
    gpu_result: Result<Reply<R>, AppError>,
    cpu_result: Result<Reply<R>, AppError>,
)
    requires
        !wins(gpu_result),
        !wins(cpu_result),
    ensures
        race_run(
            Race::at_start(),
            seq![
                RaceEvent::HedgeElapsed,
                RaceEvent::GpuDone(gpu_result),
                RaceEvent::CpuDone(cpu_result),
            ],
        ) == RaceStep::BothFailed(gpu_result),
        race_run(
            Race::at_start(),
            seq![
                RaceEvent::HedgeElapsed,
                RaceEvent::CpuDone(cpu_result),
                RaceEvent::GpuDone(gpu_result),
            ],
        ) == RaceStep::BothFailed(gpu_result),
        race_run(
            Race::at_start(),
            seq![
                RaceEvent::GpuDone(gpu_result),
                RaceEvent::HedgeElapsed,
                RaceEvent::CpuDone(cpu_result),
            ],
        ) == RaceStep::BothFailed(gpu_result),
{
    reveal_with_fuel(race_run, 4);
    let start = Race::<R>::at_start();
    let fired = Race { gpu: Leg::<R>::Running, cpu: Leg::<R>::Running };
    let hedge: RaceEvent<R> = RaceEvent::HedgeElapsed;
    let gpu_done = RaceEvent::GpuDone(gpu_result);
    let cpu_done = RaceEvent::CpuDone(cpu_result);
    assert(seq![hedge, gpu_done, cpu_done].skip(1) =~= seq![gpu_done, cpu_done]);
    assert(seq![gpu_done, cpu_done].skip(1) =~= seq![cpu_done]);
    assert(seq![hedge, cpu_done, gpu_done].skip(1) =~= seq![cpu_done, gpu_done]);
    assert(seq![cpu_done, gpu_done].skip(1) =~= seq![gpu_done]);
    assert(seq![gpu_done, hedge, cpu_done].skip(1) =~= seq![hedge, cpu_done]);
    assert(seq![hedge, cpu_done].skip(1) =~= seq![cpu_done]);
}

/// A side that has been heard stays heard.
proof fn heard_side_is_lost<R>(race: Race<R>, events: Seq<RaceEvent<R>>)
    ensures
        goes_on(race_run(race, events)) matches Some(next) ==> {
            &&& race.gpu is Lost ==> next.gpu is Lost
            &&& race.cpu is Lost && race_trace(race, events) ==> next.cpu is Lost
            &&& (exists|i: int| 0 <= i < events.len() && #[trigger] events[i] is GpuDone)
                ==> next.gpu is Lost
            &&& (exists|i: int| 0 <= i < events.len() && #[trigger] events[i] is CpuDone)
                && race_trace(race, events) ==> next.cpu is Lost
        },
    decreases events.len(),
{
    if events.len() > 0 {
        if let Some(next) = goes_on(race.after(events[0])) {
            let rest = events.skip(1);
            heard_side_is_lost(next, rest);
            assert forall|i: int| 1 <= i < events.len() implies #[trigger] events[i] == rest[i - 1] by {
            }
            if exists|i: int| 0 <= i < events.len() && #[trigger] events[i] is GpuDone {
                let i = choose|i: int| 0 <= i < events.len() && #[trigger] events[i] is GpuDone;
                if i > 0 {
                    assert(rest[i - 1] is GpuDone);
                }
            }
            if exists|i: int| 0 <= i < events.len() && #[trigger] events[i] is CpuDone {
                let i = choose|i: int| 0 <= i < events.len() && #[trigger] events[i] is CpuDone;
                if i > 0 {
                    assert(rest[i - 1] is CpuDone);
                }
            }
        }
    }
}

/// Every race ends: once both sides have been heard it is won, or both have
/// failed.
pub proof fn race_ends_when_both_are_heard<R>(race: Race<R>, events: Seq<RaceEvent<R>>, g: int, c: int)
    requires
        race.inv(),
        race_trace(race, events),
        0 <= g < events.len() && events[g] is GpuDone,
        0 <= c < events.len() && events[c] is CpuDone,
    ensures
        goes_on(race_run(race, events)) is None,
{
    heard_side_is_lost(race, events);
    run_keeps_invariant(race, events);
}

/// A race that goes on after a series of events has kept its invariant.
proof fn run_keeps_invariant<R>(race: Race<R>, events: Seq<RaceEvent<R>>)
    requires
        race.inv(),
        race_trace(race, events),
    ensures
        goes_on(race_run(race, events)) matches Some(next) ==> next.inv(),
    decreases events.len(),
{
    if events.len() > 0 {
        if let Some(next) = goes_on(race.after(events[0])) {
            race_keeps_invariant(race, events[0]);
            run_keeps_invariant(next, events.skip(1));
        }
    }
}

/// Without a response outside the 5xx class from either side a race is never
/// won; when it ends, it ends with what the GPU side brought.
pub proof fn race_without_success<R>(race: Race<R>, events: Seq<RaceEvent<R>>)
    requires
        race.inv(),
        race_trace(race, events),
        forall|i: int| 0 <= i < events.len() ==> !settles(#[trigger] events[i]),
    ensures
        match race_run(race, events) {
            RaceStep::Won { .. } => false,
            RaceStep::BothFailed(result) => !wins(result) && {
                ||| race.gpu == Leg::Lost(result)
                ||| events.contains(RaceEvent::GpuDone(result))
            },
            RaceStep::Wait(next) => next.inv(),
            RaceStep::FireCpu(next) => next.inv(),
        },
    decreases events.len(),
{
    if events.len() > 0 {
        let step = race.after(events[0]);
        assert(!settles(events[0]));
        match goes_on(step) {
            Some(next) => {
                let rest = events.skip(1);
                race_keeps_invariant(race, events[0]);
                assert forall|i: int| 0 <= i < rest.len() implies !settles(#[trigger] rest[i]) by {
                    assert(rest[i] == events[i + 1]);
                }
                race_without_success(next, rest);
                if let RaceStep::BothFailed(result) = race_run(next, rest) {
                    if rest.contains(RaceEvent::GpuDone(result)) {
                        let i = rest.index_of(RaceEvent::GpuDone(result));
                        assert(events[i + 1] == RaceEvent::GpuDone(result));
                    }
                    if next.gpu == Leg::Lost(result) && race.gpu != Leg::Lost(result) {
                        assert(events[0] == RaceEvent::GpuDone(result));
                    }
                }
            },
            None => {
                if let RaceStep::BothFailed(result) = step {
                    if race.gpu != Leg::Lost(result) {
                        assert(events[0] == RaceEvent::GpuDone(result));
                    }
                }
            },
        }
    }
}

/// The CPU upstream is asked when the hedge delay passes, and at no other
/// time: no other event calls for it.
pub proof fn cpu_is_fired_by_hedge_only<R>(race: Race<R>, event: RaceEvent<R>)
    ensures
        race.after(event) is FireCpu <==> event is HedgeElapsed,
{
}

/// While the hedge delay has not passed, the CPU upstream is never asked: if
/// the GPU upstream answers first, its answer is returned and the loser was
/// not started.
pub proof fn fast_gpu_spares_cpu<R>(result: Result<Reply<R>, AppError>)
    requires
        wins(result),
    ensures
        Race::at_start().after(RaceEvent::GpuDone(result)) == (RaceStep::Won {
            winner: PoolType::Gpu,
            loser_status: LoserStatus::NotStarted,
            result,
        }),
{
}

/// A GPU upstream that fails does not end a race while the CPU upstream has not
/// failed: the race waits for it, and what it answers outside the 5xx class is
/// returned.
pub proof fn gpu_failure_waits_for_cpu<R>(
    race: Race<R>,
    gpu_result: Result<Reply<R>, AppError>,
    cpu_result: Result<Reply<R>, AppError>,
)
    requires
        race.inv(),
        race.gpu is Running,
        race.cpu !is Lost,
        !wins(gpu_result),
        wins(cpu_result),
    ensures
        race.after(RaceEvent::GpuDone(gpu_result)) matches RaceStep::Wait(next) && next.cpu
            == race.cpu && next.after(RaceEvent::CpuDone(cpu_result)) == (RaceStep::Won {
            winner: PoolType::Cpu,
            loser_status: LoserStatus::Errored,
            result: cpu_result,
        }),
{
}

/// Responses of the 2xx, 3xx and 4xx classes settle a request, from either
/// side of a race and from the first attempt of a sequence.
pub proof fn client_errors_do_not_fall_back<R>(reply: Reply<R>, race: Race<R>, cpu: Option<String>)
    requires
        200 <= reply.status < 500,
    ensures
        race.after(RaceEvent::GpuDone(Ok(reply))) is Won,
        race.after(RaceEvent::CpuDone(Ok(reply))) is Won,
        (Stage::Gpu { cpu }).after(Timed::Finished(Ok(reply))) == SequenceStep::Done(
            Ok::<Reply<R>, AppError>(reply),
        ),
{
}

/// A sequence asks at most two upstreams, each under its own timeout, so that
/// a request waits at most twice the timeout.
pub proof fn sequence_waits_at_most_twice<R>(stage: Stage, outcome: Timed<R>, per_upstream: nat)
    ensures
        stage.attempts_left() * per_upstream <= 2 * per_upstream,
        stage.after(outcome) is TryCpu ==> stage.attempts_left() == 2
            && Stage::Cpu.attempts_left() == 1,
        Stage::Cpu.after(outcome) is Done,
{
    assert(stage.attempts_left() == 1 || stage.attempts_left() == 2);
    assert(1 * per_upstream <= 2 * per_upstream && 2 * per_upstream <= 2 * per_upstream);
}

/// The CPU upstream is tried exactly when the GPU upstream timed out, failed,
/// or answered with a 5xx, and there is one to try.
pub proof fn cpu_is_tried_after_gpu_failure<R>(cpu: Option<String>, outcome: Timed<R>)
    ensures
        (Stage::Gpu { cpu }).after(outcome) is TryCpu <==> cpu is Some && !(outcome matches
            Timed::Finished(result) && wins(result)),
{
}

/// A request is refused exactly when no upstream of either pool is routable,
/// whatever its path, and the client is then answered with status 503.
pub proof fn refused_only_without_upstreams(
    path_and_query: Seq<char>,
    config: Config,
    snapshot: PoolSnapshot,
    plan: Result<Plan, AppError>,
)
    requires
        is_planned(path_and_query, config, snapshot, plan),
    ensures
        plan is Err <==> {
            &&& forall|j: int|
                0 <= j < snapshot.gpu@.len() ==> !policy::routable(#[trigger] snapshot.gpu@[j])
            &&& forall|j: int|
                0 <= j < snapshot.cpu@.len() ==> !policy::routable(#[trigger] snapshot.cpu@[j])
        },
        plan matches Err(e) ==> e.http_status() == 503,
{
    policy::nothing_picked_means_nothing_routable(snapshot.gpu@, snapshot.cpu@);
    policy::pick_agrees_with_pools(snapshot.gpu@, snapshot.cpu@);
}

/// The addresses that a plan sends the request to, with their pools.
pub open spec fn plan_targets(plan: Plan) -> Set<(Seq<char>, PoolType)> {
    Set::new(
        |target: (Seq<char>, PoolType)|
            match plan {
                Plan::Direct { addr, pool_type } => target == (addr@, pool_type),
                Plan::Race { gpu_addr, cpu_addr, .. } => target == (gpu_addr@, PoolType::Gpu)
                    || target == (cpu_addr@, PoolType::Cpu),
                Plan::Sequential { gpu, cpu, .. } => (addr_view(gpu) == Some(target.0) && target.1
                    == PoolType::Gpu) || (addr_view(cpu) == Some(target.0) && target.1
                    == PoolType::Cpu),
            },
    )
}

/// A request is sent to routable upstreams only, each in the pool it is said
/// to be in.
pub proof fn plans_use_routable_upstreams(
    path_and_query: Seq<char>,
    config: Config,
    snapshot: PoolSnapshot,
    plan: Plan,
    addr: Seq<char>,
    pool_type: PoolType,
)
    requires
        is_planned(path_and_query, config, snapshot, Ok(plan)),
        plan_targets(plan).contains((addr, pool_type)),
    ensures
        exists|u: UpstreamInfo|
            {
                &&& #[trigger] policy::pool_named(
                    snapshot.gpu@,
                    snapshot.cpu@,
                    pool_type,
                ).contains(u)
                &&& u.addr@ == addr
                &&& policy::routable(u)
            },
{
    let pool = policy::pool_named(snapshot.gpu@, snapshot.cpu@, pool_type);
    policy::best_belongs(pool, policy::Tier::Serving);
    policy::best_belongs(pool, policy::Tier::Waking);
    let u = match policy::best_of(pool, policy::Tier::Serving) {
        Some(u) => u,
        None => policy::best_of(pool, policy::Tier::Waking)->0,
    };
    assert(target_addr(policy::pool_target(pool, pool_type)) == Some(addr));
    assert(pool.contains(u));
}

/// Whatever wins a race is a response with a status outside the 500s, and it is
/// the response that just came in, from the side that it came in from.
pub proof fn won_race_returns_a_usable_response<R>(race: Race<R>, event: RaceEvent<R>)
    ensures
        race.after(event) matches RaceStep::Won { winner, result, .. } ==> {
            &&& result matches Ok(reply) && (reply.status < 500 || reply.status > 599)
            &&& event == (match winner {
                PoolType::Gpu => RaceEvent::GpuDone(result),
                PoolType::Cpu => RaceEvent::CpuDone(result),
            })
        },
{
}

/// No error settles a race, whatever the error is: one from the GPU upstream
/// leaves the race waiting for the CPU upstream, one from the CPU upstream
/// leaves it waiting for the GPU upstream, and the second error ends it with
/// the GPU upstream's result.
pub proof fn errors_do_not_settle_a_race<R>(race: Race<R>, e: AppError)
    ensures
        race.after(RaceEvent::GpuDone(Err(e))) == (if race.cpu is Lost {
            RaceStep::BothFailed(Err(e))
        } else {
            RaceStep::Wait(Race { gpu: Leg::Lost(Err(e)), cpu: race.cpu })
        }),
        race.after(RaceEvent::CpuDone(Err(e))) == (match race.gpu {
            Leg::Lost(gpu_result) => RaceStep::BothFailed(gpu_result),
            _ => RaceStep::Wait(Race { gpu: race.gpu, cpu: Leg::Lost(Err(e)) }),
        }),
{
}

/// A response settles a race exactly when its status is outside the 500s; one
/// inside them counts like an error.
pub proof fn responses_settle_a_race_by_status<R>(race: Race<R>, reply: Reply<R>)
    ensures
        reply.status < 500 || reply.status > 599 ==> {
            &&& race.after(RaceEvent::GpuDone(Ok(reply))) == (RaceStep::Won {
                winner: PoolType::Gpu,
                loser_status: match race.cpu {
                    Leg::Waiting => LoserStatus::NotStarted,
                    Leg::Running => LoserStatus::Cancelled,
                    Leg::Lost(_) => LoserStatus::Errored,
                },
                result: Ok(reply),
            })
            &&& race.after(RaceEvent::CpuDone(Ok(reply))) == (RaceStep::Won {
                winner: PoolType::Cpu,
                loser_status: match race.gpu {
                    Leg::Lost(_) => LoserStatus::Errored,
                    _ => LoserStatus::Cancelled,
                },
                result: Ok(reply),
            })
        },
        500 <= reply.status <= 599 ==> {
            &&& race.after(RaceEvent::GpuDone(Ok(reply))) == (if race.cpu is Lost {
                RaceStep::BothFailed(Ok(reply))
            } else {
                RaceStep::Wait(Race { gpu: Leg::Lost(Ok(reply)), cpu: race.cpu })
            })
            &&& race.after(RaceEvent::CpuDone(Ok(reply))) == (match race.gpu {
                Leg::Lost(gpu_result) => RaceStep::BothFailed(gpu_result),
                _ => RaceStep::Wait(Race { gpu: race.gpu, cpu: Leg::Lost(Ok(reply)) }),
            })
        },
{
}

/// When the hedge delay has passed, the CPU upstream is asked and the GPU side
/// stays as it was.
pub proof fn hedge_asks_the_cpu<R>(race: Race<R>)
    ensures
        race.after(RaceEvent::HedgeElapsed) == RaceStep::FireCpu(
            Race { gpu: race.gpu, cpu: Leg::Running },
        ),
        Race::<R>::at_start() == (Race::<R> { gpu: Leg::Running, cpu: Leg::Waiting }),
{
}

/// What the CPU upstream brings in time goes to the client, whatever it is; a
/// CPU upstream that does not answer in time is answered with 503.
pub proof fn cpu_result_goes_to_the_client<R>(result: Result<Reply<R>, AppError>)
    ensures
        Stage::Cpu.after(Timed::Finished(result)) == SequenceStep::Done(result),
        Stage::Cpu.after(Timed::<R>::TimedOut) == SequenceStep::<R>::Done(
            Err(AppError::NoUpstreamAvailable),
        ),
        AppError::NoUpstreamAvailable.http_status() == 503,
{
}

/// What the GPU upstream brings goes to the client exactly when it is a response
/// with a status outside the 500s. After a timeout, any error, or a status in the
/// 500s the CPU upstream is asked, and without one the client is refused.
pub proof fn gpu_result_goes_to_the_client_by_status<R>(cpu: Option<String>, outcome: Timed<R>)
    ensures
        ({
            let usable = outcome matches Timed::Finished(Ok(reply)) && (reply.status < 500
                || reply.status > 599);
            let stage = Stage::Gpu { cpu };
            &&& usable ==> stage.after(outcome) == SequenceStep::Done(outcome->Finished_0)
            &&& !usable ==> stage.after(outcome) == (match cpu {
                Some(addr) => SequenceStep::<R>::TryCpu(addr),
                None => SequenceStep::<R>::Done(Err(AppError::NoUpstreamAvailable)),
            })
        }),
{
}

/// A sequence whose GPU attempt fails and whose CPU attempt succeeds ends with
/// the CPU upstream's response.
pub proof fn fallback_returns_the_cpu_response<R>(
    addr: String,
    failure: Timed<R>,
    reply: Reply<R>,
)
    requires
        !(failure matches Timed::Finished(Ok(r)) && (r.status < 500 || r.status > 599)),
    ensures
        (Stage::Gpu { cpu: Some(addr) }).after(failure) == SequenceStep::<R>::TryCpu(addr),
        Stage::Cpu.after(Timed::Finished(Ok(reply))) == SequenceStep::Done(
            Ok::<Reply<R>, AppError>(reply),
        ),
{
}

/// What is logged of an attempt: of the GPU upstream's timeouts, errors and
/// statuses in the 500s, and of the CPU upstream's timeouts.
pub proof fn setbacks_are_logged<R>(reply: Reply<R>, e: AppError)
    ensures
        setback(PoolType::Gpu, Timed::Finished(Ok(reply))) == if 500 <= reply.status <= 599 {
            Some("GPU upstream returned 5xx, attempting CPU fallback"@)
        } else {
            None
        },
        setback(PoolType::Gpu, Timed::<R>::Finished(Err(e))) == Some(
            "GPU upstream error, attempting CPU fallback"@,
        ),
        setback(PoolType::Gpu, Timed::<R>::TimedOut) == Some(
            "GPU upstream timed out within fallback budget, attempting CPU fallback"@,
        ),
        setback(PoolType::Cpu, Timed::Finished(Ok(reply))) is None,
        setback(PoolType::Cpu, Timed::<R>::Finished(Err(e))) is None,
        setback(PoolType::Cpu, Timed::<R>::TimedOut) == Some(
            "CPU upstream timed out within control-plane budget"@,
        ),
{
}

/// An inference request with a GPU and a CPU upstream to go to is raced between
/// the two with the configured hedge delay; with one of them it goes there
/// directly.
pub proof fn inference_is_raced(
    path_and_query: Seq<char>,
    config: Config,
    snapshot: PoolSnapshot,
    plan: Result<Plan, AppError>,
)
    requires
        is_planned(path_and_query, config, snapshot, plan),
        route_policy::is_inference(path_and_query),
    ensures
        match (
            policy::pool_target(snapshot.gpu@, PoolType::Gpu),
            policy::pool_target(snapshot.cpu@, PoolType::Cpu),
        ) {
            (Some((gpu, _)), Some((cpu, _))) => plan matches Ok(
                Plan::Race { gpu_addr, cpu_addr, delay },
            ) && gpu_addr@ == gpu && cpu_addr@ == cpu && delay == config.hedge_delay,
            (Some((gpu, _)), None) => plan matches Ok(Plan::Direct { addr, pool_type }) && addr@
                == gpu && pool_type == PoolType::Gpu,
            (None, Some((cpu, _))) => plan matches Ok(Plan::Direct { addr, pool_type }) && addr@
                == cpu && pool_type == PoolType::Cpu,
            (None, None) => plan == Err::<Plan, AppError>(AppError::NoUpstreamAvailable),
        },
{
}

/// Any other request is tried on the GPU upstream and then on the CPU upstream,
/// as far as there are any, each with the configured timeout.
pub proof fn control_plane_is_tried_in_sequence(
    path_and_query: Seq<char>,
    config: Config,
    snapshot: PoolSnapshot,
    plan: Result<Plan, AppError>,
)
    requires
        is_planned(path_and_query, config, snapshot, plan),
        !route_policy::is_inference(path_and_query),
    ensures
        ({
            let gpu_target = policy::pool_target(snapshot.gpu@, PoolType::Gpu);
            let cpu_target = policy::pool_target(snapshot.cpu@, PoolType::Cpu);
            if gpu_target is None && cpu_target is None {
                plan == Err::<Plan, AppError>(AppError::NoUpstreamAvailable)
            } else {
                plan matches Ok(Plan::Sequential { gpu, cpu, per_upstream }) && {
                    &&& per_upstream == config.control_timeout
                    &&& gpu is Some == gpu_target is Some
                    &&& cpu is Some == cpu_target is Some
                    &&& gpu matches Some(g) ==> gpu_target == Some((g@, PoolType::Gpu))
                    &&& cpu matches Some(c) ==> cpu_target == Some((c@, PoolType::Cpu))
                }
            }
        }),
{
}

/// Whatever has happened in a race, it is won by no error and by no status in
/// the 500s: the response that wins is one that an upstream sent.
pub proof fn no_race_is_won_by_a_failure<R>(race: Race<R>, events: Seq<RaceEvent<R>>)
    ensures
        race_run(race, events) matches RaceStep::Won { winner, result, .. } ==> {
            &&& result matches Ok(reply) && (reply.status < 500 || reply.status > 599)
            &&& events.contains(
                match winner {
                    PoolType::Gpu => RaceEvent::GpuDone(result),
                    PoolType::Cpu => RaceEvent::CpuDone(result),
                },
            )
        },
    decreases events.len(),
{
    if events.len() > 0 {
        let step = race.after(events[0]);
        won_race_returns_a_usable_response(race, events[0]);
        match goes_on(step) {
            Some(next) => {
                let rest = events.skip(1);
                no_race_is_won_by_a_failure(next, rest);
                if let RaceStep::Won { winner, result, .. } = race_run(next, rest) {
                    let event = match winner {
                        PoolType::Gpu => RaceEvent::GpuDone(result),
                        PoolType::Cpu => RaceEvent::CpuDone(result),
                    };
                    let i = rest.index_of(event);
                    assert(events[i + 1] == event);
                }
            },
            None => {
                assert(events.contains(events[0]));
            },
        }
    }
}

/// A race takes in the end of the hedge delay until the CPU upstream is asked,
/// and the answer of each side that was asked and has not answered. It goes on
/// with the GPU side asked, without a usable response, until both have failed.
pub proof fn races_take_in_what_is_due<R>(race: Race<R>, result: Result<Reply<R>, AppError>)
    ensures
        race.expects(RaceEvent::HedgeElapsed) <==> race.cpu is Waiting,
        race.expects(RaceEvent::GpuDone(result)) <==> race.gpu is Running,
        race.expects(RaceEvent::CpuDone(result)) <==> race.cpu is Running,
        race.gpu is Running && race.cpu !is Lost ==> race.inv(),
        race.gpu == Leg::Lost(result) && race.cpu !is Lost ==> (race.inv() <==> !(result matches Ok(
            reply,
        ) && (reply.status < 500 || reply.status > 599))),
        race.gpu is Running && race.cpu == Leg::Lost(result) ==> (race.inv() <==> !(result matches
            Ok(reply) && (reply.status < 500 || reply.status > 599))),
        race.gpu is Waiting || (race.gpu is Lost && race.cpu is Lost) ==> !race.inv(),
{
}

/// While a GPU upstream is healthy, every request that is sent to the GPU pool
/// goes to a healthy upstream of it, the one with the shortest queue, and every
/// request is sent there, to begin with.
pub proof fn requests_go_to_healthy_upstreams(
    path_and_query: Seq<char>,
    config: Config,
    snapshot: PoolSnapshot,
    plan: Result<Plan, AppError>,
    member: int,
) -> (i: int)
    requires
        is_planned(path_and_query, config, snapshot, plan),
        0 <= member < snapshot.gpu@.len(),
        snapshot.gpu@[member].status == UpstreamStatus::Healthy,
    ensures
        0 <= i < snapshot.gpu@.len(),
        snapshot.gpu@[i].status == UpstreamStatus::Healthy,
        forall|j: int|
            0 <= j < snapshot.gpu@.len() && (#[trigger] snapshot.gpu@[j]).status
                == UpstreamStatus::Healthy ==> snapshot.gpu@[i].queue_depth
                <= snapshot.gpu@[j].queue_depth,
        match plan {
            Ok(Plan::Race { gpu_addr, .. }) => gpu_addr@ == snapshot.gpu@[i].addr@,
            Ok(Plan::Direct { addr, pool_type }) => addr@ == snapshot.gpu@[i].addr@ && pool_type
                == PoolType::Gpu,
            Ok(Plan::Sequential { gpu, .. }) => gpu matches Some(addr) && addr@
                == snapshot.gpu@[i].addr@,
            Err(_) => false,
        },
{
    policy::healthy_upstream_is_picked(snapshot.gpu@, PoolType::Gpu, member)
}

/// The loser of a race is logged as not started, cancelled or errored.
pub proof fn losers_are_named(status: LoserStatus)
    ensures
        status.label() == match status {
            LoserStatus::NotStarted => "not_started"@,
            LoserStatus::Cancelled => "cancelled"@,
            LoserStatus::Errored => "errored"@,
        },
{
}

}
