//! The HTTP-serving inference worker's lifecycle: a supervisor with fixed
//! serving arguments and signal-only shutdown.  There is no request channel
//! to negotiate an exit through, so its stop plan is the kill alone; the
//! worker's own reachability is probed out of band over HTTP by the host
//! (see the chat client's probe address), independently of this lifecycle.

use vstd::prelude::*;

use crate::errors::ServiceError;
use crate::supervisor::{Liveness, ProcessConfig, ShutdownStyle, SpawnOutcome, StopAction,
    Supervisor, build_stop_plan, spec_stop_plan};

verus! {

/// The fixed serving arguments the worker is launched with: the model file,
/// full offload, and the local bind address.
pub open spec fn spec_server_args(model_path: Seq<char>) -> Seq<Seq<char>> {
    seq![
        "-m"@,
        model_path,
        "-ngl"@,
        "99"@,
        "-sm"@,
        "none"@,
        "-mg"@,
        "0"@,
        "--mmap"@,
        "--host"@,
        "127.0.0.1"@,
        "--port"@,
        "8080"@,
    ]
}

/// The fixed serving arguments the worker is launched with.
pub fn build_server_args(model_path: String) -> (args: Vec<String>)
    ensures
        args.deep_view() == spec_server_args(model_path@),
{
    let mut args: Vec<String> = Vec::new();
    args.push(String::from_str("-m"));
    args.push(model_path);
    args.push(String::from_str("-ngl"));
    args.push(String::from_str("99"));
    args.push(String::from_str("-sm"));
    args.push(String::from_str("none"));
    args.push(String::from_str("-mg"));
    args.push(String::from_str("0"));
    args.push(String::from_str("--mmap"));
    args.push(String::from_str("--host"));
    args.push(String::from_str("127.0.0.1"));
    args.push(String::from_str("--port"));
    args.push(String::from_str("8080"));
    proof {
        assert(args.deep_view() =~= spec_server_args(args@[1]@));
    }
    args
}

/// The supervised lifecycle of the local inference server.
pub struct LlamaServer {
    sup: Supervisor,
}

impl LlamaServer {
    /// The underlying supervisor state, for contracts.
    pub closed spec fn state(self) -> Supervisor {
        self.sup
    }

    /// A fresh, unconfigured lifecycle.
    pub fn new() -> (s: Self)
        ensures
            s.state().inv(),
            !s.state().is_configured(),
            !s.state().is_tracking(),
            !s.state().spawn_pending(),
    {
        LlamaServer { sup: Supervisor::new() }
    }

    /// Stores the executable and model paths; the next spawn uses them with
    /// the fixed serving arguments.  Allowed in any state; starts nothing.
    pub fn set_paths(&mut self, exe_path: String, model_path: String) -> (r: Result<
        (),
        ServiceError,
    >)
        requires
            old(self).state().inv(),
        ensures
            r is Ok,
            final(self).state().inv(),
            final(self).state().is_configured(),
            final(self).state().config_model() == (exe_path@, spec_server_args(model_path@)),
            final(self).state().is_tracking() == old(self).state().is_tracking(),
            final(self).state().is_tracking() ==> final(self).state().tracked_pid()
                == old(self).state().tracked_pid(),
            final(self).state().spawn_pending() == old(self).state().spawn_pending(),
    {
        let args = build_server_args(model_path);
        self.sup.configure(ProcessConfig { program: exe_path, args });
        Ok(())
    }

    /// The stored configuration, for the caller about to perform the spawn.
    pub fn config_ref(&self) -> (c: Option<&ProcessConfig>)
        ensures
            match c {
                Some(cfg) => self.state().is_configured() && cfg.model()
                    == self.state().config_model(),
                None => !self.state().is_configured(),
            },
    {
        self.sup.config_ref()
    }

    /// Decides a start against a fresh poll: rejected with `AlreadyRunning`
    /// while the server is seen live, `NotConfigured` without paths, else
    /// one spawn is demanded, to be reported through `start_finish`.
    pub fn start_decide(&mut self, poll: Liveness) -> (r: Result<(), ServiceError>)
        requires
            old(self).state().inv(),
            !old(self).state().spawn_pending(),
        ensures
            final(self).state().inv(),
            final(self).state() == Supervisor::after_start_decide(old(self).state(), poll),
            r is Ok <==> Supervisor::start_allowed(old(self).state(), poll),
            r matches Err(e) ==> e == Supervisor::start_error(old(self).state(), poll),
            Supervisor::observed_live(old(self).state(), poll)
                ==> final(self).state() == old(self).state()
                && r == Err::<(), ServiceError>(ServiceError::AlreadyRunning),
            r is Ok ==> final(self).state().spawn_pending(),
            r is Err ==> !final(self).state().spawn_pending(),
    {
        self.sup.start_decide(poll)
    }

    /// Reports the demanded spawn's outcome.
    pub fn start_finish(&mut self, outcome: SpawnOutcome) -> (r: Result<(), ServiceError>)
        requires
            old(self).state().inv(),
            old(self).state().spawn_pending(),
        ensures
            final(self).state().inv(),
            !final(self).state().spawn_pending(),
            final(self).state() == Supervisor::after_spawn_finish(old(self).state(), outcome),
            match outcome {
                SpawnOutcome::Spawned(pid) => r == Ok::<(), ServiceError>(())
                    && final(self).state().is_tracking()
                    && final(self).state().tracked_pid() == pid,
                SpawnOutcome::Failed(msg) => r == Err::<(), ServiceError>(
                    ServiceError::SpawnError(msg),
                ) && !final(self).state().is_tracking(),
            },
    {
        self.sup.spawn_finish(outcome)
    }

    /// Decides a stop: `NotRunning` (and no change) without a tracked
    /// server, else the handle is released and its identifier handed back
    /// for the signal-only termination plan.
    pub fn stop(&mut self) -> (r: Result<u64, ServiceError>)
        requires
            old(self).state().inv(),
            !old(self).state().spawn_pending(),
        ensures
            final(self).state().inv(),
            !final(self).state().spawn_pending(),
            final(self).state() == Supervisor::after_stop(old(self).state()),
            r is Ok <==> Supervisor::stop_allowed(old(self).state()),
            old(self).state().is_tracking() ==> r == Ok::<u64, ServiceError>(
                old(self).state().tracked_pid(),
            ),
            !old(self).state().is_tracking() ==> r == Err::<u64, ServiceError>(
                ServiceError::NotRunning,
            ) && final(self).state() == old(self).state(),
            !final(self).state().is_tracking(),
    {
        self.sup.stop_decide()
    }

    /// The termination plan after a granted stop: the kill alone.
    pub fn stop_plan(pid: u64) -> (p: Vec<StopAction>)
        ensures
            p@ == spec_stop_plan(ShutdownStyle::KillOnly, pid, None),
            p@ =~= seq![StopAction::Kill(pid)],
    {
        build_stop_plan(ShutdownStyle::KillOnly, pid, None)
    }

    /// Whether the server is running, from the caller's fresh poll.
    pub fn is_running(&mut self, poll: Liveness) -> (b: bool)
        requires
            old(self).state().inv(),
            !old(self).state().spawn_pending(),
        ensures
            final(self).state().inv(),
            !final(self).state().spawn_pending(),
            final(self).state() == Supervisor::after_status(old(self).state(), poll),
            b == Supervisor::observed_live(old(self).state(), poll),
            final(self).state().is_tracking() == b,
    {
        let st = self.sup.status(poll);
        match st {
            crate::supervisor::Status::Running => true,
            crate::supervisor::Status::Stopped => false,
        }
    }

    /// The status as its reported text: `running` or `stopped`, from the
    /// caller's fresh poll.
    pub fn get_status(&mut self, poll: Liveness) -> (r: String)
        requires
            old(self).state().inv(),
            !old(self).state().spawn_pending(),
        ensures
            final(self).state().inv(),
            !final(self).state().spawn_pending(),
            final(self).state() == Supervisor::after_status(old(self).state(), poll),
            r@ == if Supervisor::observed_live(old(self).state(), poll) {
                "running"@
            } else {
                "stopped"@
            },
    {
        if self.is_running(poll) {
            String::from_str("running")
        } else {
            String::from_str("stopped")
        }
    }
}

} // verus!
