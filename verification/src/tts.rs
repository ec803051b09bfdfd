//! The speech worker's façade: its supervised lifecycle, the language
//! setting, and the exact request envelopes of each operation.
//!
//! One exchange, under the host's exclusive lock, is: poll, feed the poll to
//! `ensure_running_decide` (spawning transparently where the previous worker
//! exited out of band), write the encoded request plus one newline, read one
//! reply line, and interpret it with the transport's verified functions.
//! Stop asks the worker to exit over its own protocol, grants a fixed grace
//! period, then kills unconditionally.

use vstd::prelude::*;

use crate::errors::ServiceError;
use crate::supervisor::{EnsureDecision, Liveness, ProcessConfig, ShutdownStyle, SpawnOutcome,
    StopAction, Supervisor, build_stop_plan, spec_stop_plan};
use crate::transport::{TtsCommand, TtsRequest, encode_request, spec_encode_request};

verus! {

/// Milliseconds granted for a voluntary exit before the forced kill.
pub const SHUTDOWN_GRACE_MILLIS: u64 = 500;

/// The shutdown request sent as the farewell line of a graceful stop.
pub open spec fn spec_shutdown_request() -> TtsRequest {
    (TtsRequest {
        command: TtsCommand::Shutdown,
        text: None,
        language: None,
        emotion: None,
        use_ssml: None,
    })
}

/// The speech engine: the worker's supervisor plus the language the next
/// synthesis speaks.
pub struct SileroTtsEngine {
    language: String,
    sup: Supervisor,
}

impl SileroTtsEngine {
    /// The underlying supervisor state, for contracts.
    pub closed spec fn state(self) -> Supervisor {
        self.sup
    }

    /// The language the next synthesis speaks.
    pub closed spec fn language_model(self) -> Seq<char> {
        self.language@
    }

    /// A fresh engine: English, nothing configured, nothing running.
    pub fn new() -> (e: Self)
        ensures
            e.language_model() == "en"@,
            e.state().inv(),
            !e.state().is_configured(),
            !e.state().is_tracking(),
            !e.state().spawn_pending(),
    {
        SileroTtsEngine { language: String::from_str("en"), sup: Supervisor::new() }
    }

    /// Replaces the language of later syntheses.
    pub fn set_language(&mut self, lang: &str) -> (r: Result<(), ServiceError>)
        requires
            old(self).state().inv(),
        ensures
            r is Ok,
            final(self).language_model() == lang@,
            final(self).state() == old(self).state(),
    {
        self.language = lang.to_owned();
        Ok(())
    }

    /// The language of later syntheses.
    pub fn get_language(&self) -> (r: Result<String, ServiceError>)
        ensures
            r matches Ok(s) && s@ == self.language_model(),
    {
        Ok(self.language.clone())
    }

    /// Stores how the worker process is launched.  Allowed in any state.
    pub fn configure(&mut self, c: ProcessConfig)
        requires
            old(self).state().inv(),
        ensures
            final(self).state().inv(),
            final(self).state() == Supervisor::after_configure(old(self).state(), c),
            final(self).state().is_configured(),
            final(self).state().config_model() == c.model(),
            final(self).state().spawn_pending() == old(self).state().spawn_pending(),
            final(self).state().is_tracking() == old(self).state().is_tracking(),
            final(self).language_model() == old(self).language_model(),
    {
        self.sup.configure(c)
    }

    /// The stored launch configuration, for the caller about to spawn.
    pub fn config_ref(&self) -> (c: Option<&ProcessConfig>)
        ensures
            match c {
                Some(cfg) => self.state().is_configured() && cfg.model()
                    == self.state().config_model(),
                None => !self.state().is_configured(),
            },
    {
        self.sup.config_ref()
    }

    /// The head of every exchange: from the caller's fresh poll, either the
    /// worker is live, or exactly one transparent respawn is demanded, to be
    /// reported through `spawn_finish`.
    pub fn ensure_running_decide(&mut self, poll: Liveness) -> (r: Result<
        EnsureDecision,
        ServiceError,
    >)
        requires
            old(self).state().inv(),
            !old(self).state().spawn_pending(),
        ensures
            final(self).state().inv(),
            final(self).state() == Supervisor::after_ensure_decide(old(self).state(), poll),
            r is Ok <==> Supervisor::ensure_allowed(old(self).state(), poll),
            r == Ok::<EnsureDecision, ServiceError>(EnsureDecision::SpawnNeeded)
                <==> Supervisor::ensure_needs_spawn(old(self).state(), poll),
            Supervisor::observed_live(old(self).state(), poll)
                ==> final(self).state() == old(self).state()
                && r == Ok::<EnsureDecision, ServiceError>(EnsureDecision::AlreadyLive),
            !Supervisor::ensure_allowed(old(self).state(), poll) ==> r == Err::<
                EnsureDecision,
                ServiceError,
            >(ServiceError::NotConfigured),
            final(self).state().spawn_pending() <==> Supervisor::ensure_needs_spawn(
                old(self).state(),
                poll,
            ),
            final(self).language_model() == old(self).language_model(),
    {
        self.sup.ensure_running_decide(poll)
    }

    /// Reports the demanded spawn's outcome.
    pub fn spawn_finish(&mut self, outcome: SpawnOutcome) -> (r: Result<(), ServiceError>)
        requires
            old(self).state().inv(),
            old(self).state().spawn_pending(),
        ensures
            final(self).state().inv(),
            !final(self).state().spawn_pending(),
            final(self).state() == Supervisor::after_spawn_finish(old(self).state(), outcome),
            match outcome {
                SpawnOutcome::Spawned(pid) => r == Ok::<(), ServiceError>(())
                    && final(self).state().is_tracking()
                    && final(self).state().tracked_pid() == pid,
                SpawnOutcome::Failed(msg) => r == Err::<(), ServiceError>(
                    ServiceError::SpawnError(msg),
                ) && !final(self).state().is_tracking(),
            },
            final(self).language_model() == old(self).language_model(),
    {
        self.sup.spawn_finish(outcome)
    }

    /// The exact envelope of one synthesis: the text, the engine's current
    /// language, the emotion, and markup enabled.
    pub fn speak_request(&self, text: &str, emotion: &str) -> (req: TtsRequest)
        ensures
            req.command == TtsCommand::Synthesize,
            req.text matches Some(t) && t@ == text@,
            req.language matches Some(l) && l@ == self.language_model(),
            req.emotion matches Some(e) && e@ == emotion@,
            req.use_ssml == Some(true),
    {
        TtsRequest {
            command: TtsCommand::Synthesize,
            text: Some(text.to_owned()),
            language: Some(self.language.clone()),
            emotion: Some(emotion.to_owned()),
            use_ssml: Some(true),
        }
    }

    /// The exact envelope of an eager model load for `language`.
    pub fn preload_request(language: &str) -> (req: TtsRequest)
        ensures
            req.command == TtsCommand::LoadModel,
            req.text is None,
            req.language matches Some(l) && l@ == language@,
            req.emotion is None,
            req.use_ssml is None,
    {
        TtsRequest {
            command: TtsCommand::LoadModel,
            text: None,
            language: Some(language.to_owned()),
            emotion: None,
            use_ssml: None,
        }
    }

    /// The exact envelope of the graceful shutdown request.
    pub fn shutdown_request() -> (req: TtsRequest)
        ensures
            req == spec_shutdown_request(),
    {
        TtsRequest {
            command: TtsCommand::Shutdown,
            text: None,
            language: None,
            emotion: None,
            use_ssml: None,
        }
    }

    /// Decides a stop: `NotRunning` (and no change) without a tracked
    /// worker, else the handle is released and its identifier handed back
    /// for the graceful-then-kill plan.
    pub fn stop_decide(&mut self) -> (r: Result<u64, ServiceError>)
        requires
            old(self).state().inv(),
            !old(self).state().spawn_pending(),
        ensures
            final(self).state().inv(),
            !final(self).state().spawn_pending(),
            final(self).state() == Supervisor::after_stop(old(self).state()),
            r is Ok <==> Supervisor::stop_allowed(old(self).state()),
            old(self).state().is_tracking() ==> r == Ok::<u64, ServiceError>(
                old(self).state().tracked_pid(),
            ),
            !old(self).state().is_tracking() ==> r == Err::<u64, ServiceError>(
                ServiceError::NotRunning,
            ) && final(self).state() == old(self).state(),
            !final(self).state().is_tracking(),
            final(self).language_model() == old(self).language_model(),
    {
        self.sup.stop_decide()
    }

    /// The termination plan after a granted stop: the encoded shutdown
    /// request as the farewell line, the fixed grace period, then the
    /// unconditional kill.
    pub fn stop_plan(pid: u64) -> (p: Vec<StopAction>)
        ensures
            p@.len() == 3,
            p@[0] matches StopAction::SendLine(l) && l@ == spec_encode_request(
                spec_shutdown_request(),
            ),
            p@[1] == StopAction::SleepMillis(SHUTDOWN_GRACE_MILLIS),
            p@[2] == StopAction::Kill(pid),
            p@ == spec_stop_plan(
                ShutdownStyle::GracefulThenKill { grace_millis: SHUTDOWN_GRACE_MILLIS },
                pid,
                Some(p@[0]->SendLine_0),
            ),
    {
        let farewell = encode_request(&Self::shutdown_request());
        build_stop_plan(
            ShutdownStyle::GracefulThenKill { grace_millis: SHUTDOWN_GRACE_MILLIS },
            pid,
            Some(farewell),
        )
    }
}

} // verus!
