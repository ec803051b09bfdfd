//! The generic process supervisor: a state machine that owns the decisions of
//! a supervised child process's lifecycle.
//!
//! The supervisor itself performs no operating-system work.  The host
//! application holds the real child process and the exclusive-access lock; it
//! polls the child, spawns and kills it, and feeds each outcome back here.
//! One logical operation is a short protocol under that lock:
//!
//! * `configure` stores the launch configuration (allowed in any state);
//! * `start_decide` / `ensure_running_decide` take the result of a fresh
//!   non-blocking poll and either finish immediately or demand one spawn,
//!   which the caller reports back through `spawn_finish`;
//! * `stop_decide` releases the tracked process and hands back its
//!   identifier, and `build_stop_plan` says exactly which termination steps
//!   the caller must run;
//! * `status` maps a fresh poll to the externally visible state.
//!
//! A crashed process is never a distinct visible state: any operation that
//! sees `Exited` collapses the supervisor back to "stopped" before deciding,
//! so restart is always a lazy, explicit decision of the next call.

use vstd::prelude::*;

use crate::errors::ServiceError;

verus! {

/// Immutable launch configuration of a supervised process: the executable
/// and the full argument list it is started with.
pub struct ProcessConfig {
    pub program: String,
    pub args: Vec<String>,
}

impl ProcessConfig {
    /// The mathematical value of a configuration: the program text and the
    /// argument texts.
    pub open spec fn model(self) -> (Seq<char>, Seq<Seq<char>>) {
        (self.program@, self.args.deep_view())
    }
}

/// The result of one fresh, non-blocking poll of the child process.
#[derive(Clone, Copy, Debug, PartialEq, Eq, Structural)]
pub enum Liveness {
    /// The process had not exited at the time of the poll.
    Alive,
    /// The process has exited (or there is no process to poll).
    Exited,
}

/// What the operating system answered to a spawn demanded by the supervisor.
#[derive(Debug)]
pub enum SpawnOutcome {
    /// A process was created; carries the caller's identifier for it.
    Spawned(u64),
    /// The spawn was refused; carries the operating system's error text.
    Failed(String),
}

/// The externally visible state of a supervised service.
#[derive(Clone, Copy, Debug, PartialEq, Eq, Structural)]
pub enum Status {
    Running,
    Stopped,
}

/// The answer of `ensure_running_decide`.
#[derive(Clone, Copy, Debug, PartialEq, Eq, Structural)]
pub enum EnsureDecision {
    /// A live process exists; nothing to do.
    AlreadyLive,
    /// Exactly one spawn is demanded; report it through `spawn_finish`.
    SpawnNeeded,
}

/// One step of a termination plan, to be run in order by the caller.
#[derive(Debug)]
pub enum StopAction {
    /// Best-effort: write this line to the process's standard input and flush.
    SendLine(String),
    /// Wait this many milliseconds for a voluntary exit.
    SleepMillis(u64),
    /// Unconditionally send the termination signal to this process.
    Kill(u64),
}

/// How a supervised service is shut down.
#[derive(Clone, Copy, Debug, PartialEq, Eq, Structural)]
pub enum ShutdownStyle {
    /// Send the termination signal at once; there is no request channel.
    KillOnly,
    /// Ask the worker to exit over its own protocol, grant it a bounded
    /// grace period, then kill unconditionally.
    GracefulThenKill { grace_millis: u64 },
}

/// The supervisor's whole state.  `handle` is the identifier of the child the
/// caller currently holds for this service, if any; `spawn_pending` is true
/// only between a decide that demanded a spawn and its `spawn_finish`.
pub struct Supervisor {
    config: Option<ProcessConfig>,
    handle: Option<u64>,
    spawn_pending: bool,
}

impl Supervisor {
    /// A configuration has been stored.
    pub closed spec fn is_configured(self) -> bool {
        self.config is Some
    }

    /// The stored configuration's value.
    pub closed spec fn config_model(self) -> (Seq<char>, Seq<Seq<char>>)
        recommends
            self.is_configured(),
    {
        self.config->Some_0.model()
    }

    /// The supervisor holds a process identifier (the process may
    /// nevertheless have exited since the last poll).
    pub closed spec fn is_tracking(self) -> bool {
        self.handle is Some
    }

    /// The identifier of the tracked process.
    pub closed spec fn tracked_pid(self) -> u64
        recommends
            self.is_tracking(),
    {
        self.handle->Some_0
    }

    /// A demanded spawn has not been reported back yet.
    pub closed spec fn spawn_pending(self) -> bool {
        self.spawn_pending
    }

    /// The state invariant: a spawn is demanded only while no process is
    /// tracked and a configuration exists to spawn from.
    pub closed spec fn inv(self) -> bool {
        self.spawn_pending ==> (self.handle is None && self.config is Some)
    }

    // ----- the transition relation, stated once and shared by the
    // ----- contracts below and the lemmas at the end of this file

    pub closed spec fn after_configure(s: Self, c: ProcessConfig) -> Self {
        Supervisor { config: Some(c), ..s }
    }

    /// A fresh poll shows a live process.
    pub open spec fn observed_live(s: Self, poll: Liveness) -> bool {
        s.is_tracking() && poll == Liveness::Alive
    }

    pub closed spec fn after_status(s: Self, poll: Liveness) -> Self {
        if Self::observed_live(s, poll) {
            s
        } else {
            Supervisor { handle: None, ..s }
        }
    }

    pub open spec fn status_of(s: Self, poll: Liveness) -> Status {
        if Self::observed_live(s, poll) {
            Status::Running
        } else {
            Status::Stopped
        }
    }

    /// `start_decide` answers `Ok` exactly here.
    pub open spec fn start_allowed(s: Self, poll: Liveness) -> bool {
        !Self::observed_live(s, poll) && s.is_configured()
    }

    pub open spec fn start_error(s: Self, poll: Liveness) -> ServiceError {
        if Self::observed_live(s, poll) {
            ServiceError::AlreadyRunning
        } else {
            ServiceError::NotConfigured
        }
    }

    pub closed spec fn after_start_decide(s: Self, poll: Liveness) -> Self {
        if Self::observed_live(s, poll) {
            s
        } else if !s.is_configured() {
            Supervisor { handle: None, ..s }
        } else {
            Supervisor { handle: None, spawn_pending: true, ..s }
        }
    }

    /// `ensure_running_decide` answers `Ok` exactly here.
    pub open spec fn ensure_allowed(s: Self, poll: Liveness) -> bool {
        Self::observed_live(s, poll) || s.is_configured()
    }

    /// `ensure_running_decide` demands a spawn exactly here.
    pub open spec fn ensure_needs_spawn(s: Self, poll: Liveness) -> bool {
        !Self::observed_live(s, poll) && s.is_configured()
    }

    pub closed spec fn after_ensure_decide(s: Self, poll: Liveness) -> Self {
        if Self::observed_live(s, poll) {
            s
        } else if !s.is_configured() {
            Supervisor { handle: None, ..s }
        } else {
            Supervisor { handle: None, spawn_pending: true, ..s }
        }
    }

    pub closed spec fn after_spawn_finish(s: Self, outcome: SpawnOutcome) -> Self {
        match outcome {
            SpawnOutcome::Spawned(pid) => Supervisor {
                handle: Some(pid),
                spawn_pending: false,
                ..s
            },
            SpawnOutcome::Failed(_) => Supervisor { spawn_pending: false, ..s },
        }
    }

    /// `stop_decide` answers `Ok` exactly here.
    pub open spec fn stop_allowed(s: Self) -> bool {
        s.is_tracking()
    }

    pub closed spec fn after_stop(s: Self) -> Self {
        Supervisor { handle: None, ..s }
    }

    // ----- executable operations

    /// A fresh supervisor: no configuration, no process, no pending spawn.
    pub fn new() -> (s: Self)
        ensures
            s.inv(),
            !s.is_configured(),
            !s.is_tracking(),
            !s.spawn_pending(),
    {
        Supervisor { config: None, handle: None, spawn_pending: false }
    }

    /// Stores the configuration the next spawn will use.  Allowed in any
    /// state; it starts nothing by itself.
    pub fn configure(&mut self, c: ProcessConfig)
        requires
            old(self).inv(),
        ensures
            final(self).inv(),
            *final(self) == Self::after_configure(*old(self), c),
            final(self).is_configured(),
            final(self).config_model() == c.model(),
            final(self).is_tracking() == old(self).is_tracking(),
            final(self).is_tracking() ==> final(self).tracked_pid() == old(self).tracked_pid(),
            final(self).spawn_pending() == old(self).spawn_pending(),
    {
        self.config = Some(c);
    }

    /// The stored configuration, for the caller about to perform a spawn.
    pub fn config_ref(&self) -> (c: Option<&ProcessConfig>)
        ensures
            match c {
                Some(cfg) => self.is_configured() && cfg.model() == self.config_model(),
                None => !self.is_configured(),
            },
    {
        match &self.config {
            Some(cfg) => Some(cfg),
            None => None,
        }
    }

    /// The externally visible state, derived from the fresh poll the caller
    /// just made — never from a cached flag.  A poll that shows an exited
    /// process releases the stale handle, so a crash is observed at the next
    /// call rather than reported as `Running`.
    pub fn status(&mut self, poll: Liveness) -> (st: Status)
        requires
            old(self).inv(),
            !old(self).spawn_pending(),
        ensures
            final(self).inv(),
            !final(self).spawn_pending(),
            *final(self) == Self::after_status(*old(self), poll),
            st == Self::status_of(*old(self), poll),
            st == Status::Running <==> Self::observed_live(*old(self), poll),
            poll == Liveness::Exited ==> st == Status::Stopped,
            final(self).is_tracking() <==> st == Status::Running,
            final(self).is_configured() == old(self).is_configured(),
            old(self).is_configured() ==> final(self).config_model() == old(self).config_model(),
    {
        match (&self.handle, poll) {
            (Some(_), Liveness::Alive) => Status::Running,
            _ => {
                self.handle = None;
                Status::Stopped
            },
        }
    }

    /// Decides a `start`.  A live process rejects the call with
    /// `AlreadyRunning` and changes nothing, so no second process can ever be
    /// spawned over a live one; with no configuration the call fails with
    /// `NotConfigured`; otherwise exactly one spawn is demanded, to be
    /// reported through `spawn_finish`.
    pub fn start_decide(&mut self, poll: Liveness) -> (r: Result<(), ServiceError>)
        requires
            old(self).inv(),
            !old(self).spawn_pending(),
        ensures
            final(self).inv(),
            *final(self) == Self::after_start_decide(*old(self), poll),
            r is Ok <==> Self::start_allowed(*old(self), poll),
            r matches Err(e) ==> e == Self::start_error(*old(self), poll),
            Self::observed_live(*old(self), poll) ==> *final(self) == *old(self)
                && r == Err::<(), ServiceError>(ServiceError::AlreadyRunning),
            r is Ok ==> final(self).spawn_pending() && !final(self).is_tracking(),
            r is Err ==> !final(self).spawn_pending(),
            final(self).is_configured() == old(self).is_configured(),
            old(self).is_configured() ==> final(self).config_model() == old(self).config_model(),
    {
        match (&self.handle, poll) {
            (Some(_), Liveness::Alive) => Err(ServiceError::AlreadyRunning),
            _ => {
                self.handle = None;
                if self.config.is_some() {
                    self.spawn_pending = true;
                    Ok(())
                } else {
                    Err(ServiceError::NotConfigured)
                }
            },
        }
    }

    /// Decides an `ensure_running`: the idempotent head of every request
    /// path.  A process seen alive needs nothing; otherwise — stopped,
    /// crashed out-of-band, or never started — exactly one spawn from the
    /// stored configuration is demanded, or `NotConfigured` if none was ever
    /// set.
    pub fn ensure_running_decide(&mut self, poll: Liveness) -> (r: Result<
        EnsureDecision,
        ServiceError,
    >)
        requires
            old(self).inv(),
            !old(self).spawn_pending(),
        ensures
            final(self).inv(),
            *final(self) == Self::after_ensure_decide(*old(self), poll),
            r is Ok <==> Self::ensure_allowed(*old(self), poll),
            r == Ok::<EnsureDecision, ServiceError>(EnsureDecision::SpawnNeeded)
                <==> Self::ensure_needs_spawn(*old(self), poll),
            Self::observed_live(*old(self), poll) ==> *final(self) == *old(self)
                && r == Ok::<EnsureDecision, ServiceError>(EnsureDecision::AlreadyLive),
            !Self::ensure_allowed(*old(self), poll) ==> r == Err::<EnsureDecision, ServiceError>(
                ServiceError::NotConfigured,
            ) && !final(self).is_tracking(),
            final(self).spawn_pending() <==> Self::ensure_needs_spawn(*old(self), poll),
            final(self).is_configured() == old(self).is_configured(),
            old(self).is_configured() ==> final(self).config_model() == old(self).config_model(),
    {
        match (&self.handle, poll) {
            (Some(_), Liveness::Alive) => Ok(EnsureDecision::AlreadyLive),
            _ => {
                self.handle = None;
                if self.config.is_some() {
                    self.spawn_pending = true;
                    Ok(EnsureDecision::SpawnNeeded)
                } else {
                    Err(ServiceError::NotConfigured)
                }
            },
        }
    }

    /// Reports the outcome of the one demanded spawn.  Success makes the new
    /// process the tracked one; refusal returns the supervisor to "stopped"
    /// and surfaces the operating system's text as `SpawnError`.
    pub fn spawn_finish(&mut self, outcome: SpawnOutcome) -> (r: Result<(), ServiceError>)
        requires
            old(self).inv(),
            old(self).spawn_pending(),
        ensures
            final(self).inv(),
            !final(self).spawn_pending(),
            *final(self) == Self::after_spawn_finish(*old(self), outcome),
            match outcome {
                SpawnOutcome::Spawned(pid) => r == Ok::<(), ServiceError>(())
                    && final(self).is_tracking() && final(self).tracked_pid() == pid,
                SpawnOutcome::Failed(msg) => r == Err::<(), ServiceError>(
                    ServiceError::SpawnError(msg),
                ) && !final(self).is_tracking(),
            },
            final(self).is_configured() == old(self).is_configured(),
            old(self).is_configured() ==> final(self).config_model() == old(self).config_model(),
    {
        self.spawn_pending = false;
        match outcome {
            SpawnOutcome::Spawned(pid) => {
                self.handle = Some(pid);
                Ok(())
            },
            SpawnOutcome::Failed(msg) => Err(ServiceError::SpawnError(msg)),
        }
    }

    /// Decides a `stop`.  With no tracked process the call fails with
    /// `NotRunning` and changes nothing — so repeating it fails the same way.
    /// Otherwise the handle is released at once (whatever the later kill
    /// answers, the supervisor is never stuck "running") and the tracked
    /// identifier is handed back for the termination plan.
    pub fn stop_decide(&mut self) -> (r: Result<u64, ServiceError>)
        requires
            old(self).inv(),
            !old(self).spawn_pending(),
        ensures
            final(self).inv(),
            !final(self).spawn_pending(),
            *final(self) == Self::after_stop(*old(self)),
            r is Ok <==> Self::stop_allowed(*old(self)),
            old(self).is_tracking() ==> r == Ok::<u64, ServiceError>(old(self).tracked_pid()),
            !old(self).is_tracking() ==> r == Err::<u64, ServiceError>(ServiceError::NotRunning)
                && *final(self) == *old(self),
            !final(self).is_tracking(),
            final(self).is_configured() == old(self).is_configured(),
            old(self).is_configured() ==> final(self).config_model() == old(self).config_model(),
    {
        match self.handle {
            Some(pid) => {
                self.handle = None;
                Ok(pid)
            },
            None => Err(ServiceError::NotRunning),
        }
    }
}

// ----- termination plans

/// The grace a style grants a worker before the forced kill, in milliseconds.
pub open spec fn grace_of(style: ShutdownStyle) -> nat {
    match style {
        ShutdownStyle::KillOnly => 0,
        ShutdownStyle::GracefulThenKill { grace_millis } => grace_millis as nat,
    }
}

/// The exact termination plan: ask the worker to exit where a farewell line
/// could be produced, wait out the grace period, then kill unconditionally.
/// Where the graceful request cannot even be sent, go straight to the kill.
pub open spec fn spec_stop_plan(style: ShutdownStyle, pid: u64, farewell: Option<String>) -> Seq<
    StopAction,
> {
    match (style, farewell) {
        (ShutdownStyle::GracefulThenKill { grace_millis }, Some(line)) => seq![
            StopAction::SendLine(line),
            StopAction::SleepMillis(grace_millis),
            StopAction::Kill(pid),
        ],
        _ => seq![StopAction::Kill(pid)],
    }
}

/// The milliseconds a plan spends waiting, summed.
pub open spec fn plan_sleep_total(p: Seq<StopAction>) -> nat
    decreases p.len(),
{
    if p.len() == 0 {
        0
    } else {
        (match p[0] {
            StopAction::SleepMillis(ms) => ms as nat,
            _ => 0,
        }) + plan_sleep_total(p.drop_first())
    }
}

/// Builds the termination plan the caller must run in order, after
/// `stop_decide` released the process.  `farewell` is the worker's encoded
/// shutdown request, or `None` where none exists (no request channel, or the
/// line could not be produced): then the plan is the kill alone.
pub fn build_stop_plan(style: ShutdownStyle, pid: u64, farewell: Option<String>) -> (p: Vec<
    StopAction,
>)
    ensures
        p@ == spec_stop_plan(style, pid, farewell),
{
    let mut p: Vec<StopAction> = Vec::new();
    match (style, farewell) {
        (ShutdownStyle::GracefulThenKill { grace_millis }, Some(line)) => {
            p.push(StopAction::SendLine(line));
            p.push(StopAction::SleepMillis(grace_millis));
            p.push(StopAction::Kill(pid));
        },
        (_, _) => {
            p.push(StopAction::Kill(pid));
        },
    }
    proof {
        assert(p@ =~= spec_stop_plan(style, pid, farewell));
    }
    p
}

/// Folds the operating system's answer to the plan's forced kill into the
/// stop's result.  The supervisor released its handle before the plan ran,
/// so a refused kill is surfaced as `TerminationFailed` but prevents
/// nothing: the service is never stuck unable to retry.
pub fn conclude_stop(kill_error: Option<String>) -> (r: Result<(), ServiceError>)
    ensures
        match kill_error {
            None => r == Ok::<(), ServiceError>(()),
            Some(msg) => r == Err::<(), ServiceError>(ServiceError::TerminationFailed(msg)),
        },
{
    match kill_error {
        None => Ok(()),
        Some(msg) => Err(ServiceError::TerminationFailed(msg)),
    }
}

// ----- the laws of the state machine

/// After a `configure`, a full `start → stop → start → stop` cycle succeeds
/// at every step, provided the operating system grants each of the two
/// demanded spawns — each `start` after a prior `stop` finds the unchanged
/// configuration still in place.
pub proof fn lemma_restart_cycle(
    s0: Supervisor,
    c: ProcessConfig,
    poll: Liveness,
    pid1: u64,
    pid2: u64,
)
    requires
        s0.inv(),
        !s0.spawn_pending(),
        !s0.is_tracking(),
    ensures
        ({
            let s1 = Supervisor::after_configure(s0, c);
            let s2 = Supervisor::after_start_decide(s1, poll);
            let s3 = Supervisor::after_spawn_finish(s2, SpawnOutcome::Spawned(pid1));
            let s4 = Supervisor::after_stop(s3);
            let s5 = Supervisor::after_start_decide(s4, Liveness::Exited);
            let s6 = Supervisor::after_spawn_finish(s5, SpawnOutcome::Spawned(pid2));
            &&& Supervisor::start_allowed(s1, poll)
            &&& s3.is_tracking() && s3.tracked_pid() == pid1
            &&& Supervisor::stop_allowed(s3)
            &&& s4.config_model() == c.model()
            &&& Supervisor::start_allowed(s4, Liveness::Exited)
            &&& s6.is_tracking() && s6.tracked_pid() == pid2
            &&& Supervisor::stop_allowed(s6)
            &&& !Supervisor::after_stop(s6).is_tracking()
        }),
{
}

/// A `start` against a process seen alive always fails with `AlreadyRunning`,
/// leaves the supervisor exactly as it was, and demands no spawn — so a
/// second process is never created over a live one.
pub proof fn lemma_start_while_running_rejected(s: Supervisor, poll: Liveness)
    requires
        s.inv(),
        !s.spawn_pending(),
        Supervisor::observed_live(s, poll),
    ensures
        !Supervisor::start_allowed(s, poll),
        Supervisor::start_error(s, poll) == ServiceError::AlreadyRunning,
        Supervisor::after_start_decide(s, poll) == s,
        !Supervisor::after_start_decide(s, poll).spawn_pending(),
{
}

/// A `stop` with no tracked process always fails with `NotRunning` and
/// changes nothing, so repeating it any number of times fails the same way.
pub proof fn lemma_stop_idempotent(s: Supervisor)
    requires
        s.inv(),
        !s.is_tracking(),
    ensures
        !Supervisor::stop_allowed(s),
        Supervisor::after_stop(s) == s,
        !Supervisor::stop_allowed(Supervisor::after_stop(s)),
{
    assert(Supervisor::after_stop(s) == s);
}

/// After an out-of-band exit, the next `ensure_running` demands exactly one
/// replacement spawn, whose success makes the replacement the tracked
/// process with nothing further pending; and while the process is seen
/// alive, `ensure_running` demands no spawn at all.
pub proof fn lemma_crash_single_respawn(s: Supervisor, pid: u64)
    requires
        s.inv(),
        !s.spawn_pending(),
        s.is_tracking(),
        s.is_configured(),
    ensures
        !Supervisor::ensure_needs_spawn(s, Liveness::Alive),
        Supervisor::after_ensure_decide(s, Liveness::Alive) == s,
        Supervisor::ensure_needs_spawn(s, Liveness::Exited),
        ({
            let s1 = Supervisor::after_ensure_decide(s, Liveness::Exited);
            let s2 = Supervisor::after_spawn_finish(s1, SpawnOutcome::Spawned(pid));
            &&& s1.spawn_pending() && !s1.is_tracking()
            &&& s2.is_tracking() && s2.tracked_pid() == pid
            &&& !s2.spawn_pending()
        }),
{
}

/// `status` never answers `Running` for a process whose poll shows it
/// already exited, whatever was cached before the call.
pub proof fn lemma_status_never_stale(s: Supervisor)
    ensures
        Supervisor::status_of(s, Liveness::Exited) == Status::Stopped,
{
}

/// Every termination plan is bounded: at most three steps, its waiting time
/// never exceeds the style's grace period, and its last step is always the
/// unconditional kill — shutdown completes within the grace period plus the
/// cost of the two bounded steps around it, whether or not the worker
/// cooperates.
pub proof fn lemma_stop_plan_bounded(style: ShutdownStyle, pid: u64, farewell: Option<String>)
    ensures
        ({
            let p = spec_stop_plan(style, pid, farewell);
            &&& 1 <= p.len() <= 3
            &&& p.last() == StopAction::Kill(pid)
            &&& plan_sleep_total(p) <= grace_of(style)
        }),
{
    let p = spec_stop_plan(style, pid, farewell);
    reveal_with_fuel(plan_sleep_total, 4);
    match (style, farewell) {
        (ShutdownStyle::GracefulThenKill { grace_millis }, Some(line)) => {
            assert(plan_sleep_total(p) == grace_millis);
        },
        (_, _) => {
            assert(plan_sleep_total(p) == 0);
        },
    }
}

} // verus!
