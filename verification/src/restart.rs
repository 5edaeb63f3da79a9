//! Restart wrapper: re-executes the program after a successful update.
//!
//! A run of the wrapper is a small state machine. It first looks up the guard
//! environment variable; when the variable is set, the program was already
//! restarted after an update and the run replies up to date. Otherwise the
//! wrapped check runs; when it reports an installed release, the program is
//! restarted with the guard variable set, which on success never returns.

use vstd::prelude::*;

use crate::outcome::{Outcome, Reply, Status, UpdateError, UpdateStatus};

verus! {

/// Guard variable used when the builder is given none.
pub const DEFAULT_GUARD_ENV: &'static str = "RESTART_GUARD";

/// Value given to the guard variable of the restarted program.
pub const GUARD_VALUE: &'static str = "1";

/// Start of the message of a failed restart.
pub const RESTART_FAILURE_PREFIX: &'static str = "re-executing updated binary: ";

/// Message of the error that `build` gives without a release update.
pub const MISSING_RELEASE_UPDATE: &'static str = "`release_update` required";

/// Builder for a restart [`Update`].
pub struct UpdateBuilder<R> {
    release_update: Option<R>,
    guard_env: Option<String>,
}

/// Wraps a release update and restarts the program with the freshly installed
/// binary after a successful update. A guard environment variable, set to
/// `"1"` for the restarted program, prevents restart loops.
pub struct Update<R> {
    inner: R,
    guard_env: String,
}

/// The text of an optional string.
pub open spec fn opt_text(s: Option<String>) -> Option<Seq<char>> {
    match s {
        Some(t) => Some(t@),
        None => None,
    }
}

impl<R> UpdateBuilder<R> {
    /// The release update that the builder holds, if any.
    pub closed spec fn spec_release_update(&self) -> Option<R> {
        self.release_update
    }

    /// The guard variable that the builder was given, if any.
    pub closed spec fn spec_guard_env(&self) -> Option<Seq<char>> {
        opt_text(self.guard_env)
    }

    /// A builder with nothing set.
    pub fn new() -> (b: Self)
        ensures
            b.spec_release_update() is None,
            b.spec_guard_env() is None,
    {
        UpdateBuilder { release_update: None, guard_env: None }
    }

    /// Sets the release update to wrap. Required.
    pub fn release_update(&mut self, release_update: R) -> (b: &mut Self)
        ensures
            b.spec_release_update() == Some(release_update),
            b.spec_guard_env() == old(self).spec_guard_env(),
            *final(self) == *final(b),
    {
        self.release_update = Some(release_update);
        self
    }

    /// Sets the guard variable used to prevent restart loops. Defaults to
    /// `RESTART_GUARD`.
    pub fn guard_env(&mut self, env: &str) -> (b: &mut Self)
        ensures
            b.spec_release_update() == old(self).spec_release_update(),
            b.spec_guard_env() == Some(env@),
            *final(self) == *final(b),
    {
        self.guard_env = Some(env.to_owned());
        self
    }

    /// Checks the configuration and creates the `Update`. Fails with a
    /// configuration error when no release update was set; the release update
    /// is taken out of the builder, the guard variable stays.
    pub fn build(&mut self) -> (r: Result<Update<R>, UpdateError>)
        ensures
            final(self).spec_release_update() is None,
            final(self).spec_guard_env() == old(self).spec_guard_env(),
            match old(self).spec_release_update() {
                Some(inner) => r matches Ok(u) && u.spec_inner() == inner && u.spec_guard_env()
                    == match old(self).spec_guard_env() {
                    Some(g) => g,
                    None => DEFAULT_GUARD_ENV@,
                },
                None => r matches Err(UpdateError::Config(m)) && m@ == MISSING_RELEASE_UPDATE@,
            },
    {
        match self.release_update.take() {
            Some(inner) => {
                let guard_env = match &self.guard_env {
                    Some(g) => g.clone(),
                    None => DEFAULT_GUARD_ENV.to_owned(),
                };
                Ok(Update { inner, guard_env })
            },
            None => Err(UpdateError::Config(MISSING_RELEASE_UPDATE.to_owned())),
        }
    }
}

impl<R> Default for UpdateBuilder<R> {
    /// A builder with nothing set.
    fn default() -> (b: Self)
        ensures
            b.spec_release_update() is None,
            b.spec_guard_env() is None,
    {
        UpdateBuilder::new()
    }
}

impl<R> Update<R> {
    /// The wrapped release update.
    pub closed spec fn spec_inner(&self) -> R {
        self.inner
    }

    /// The name of the guard variable.
    pub closed spec fn spec_guard_env(&self) -> Seq<char> {
        self.guard_env@
    }

    /// A builder for an `Update`.
    pub fn configure() -> (b: UpdateBuilder<R>)
        ensures
            b.spec_release_update() is None,
            b.spec_guard_env() is None,
    {
        UpdateBuilder::new()
    }

    /// The wrapped release update.
    pub fn inner(&self) -> (r: &R)
        ensures
            *r == self.spec_inner(),
    {
        &self.inner
    }

    /// The name of the guard variable.
    pub fn guard_env_name(&self) -> (g: &str)
        ensures
            g@ == self.spec_guard_env(),
    {
        self.guard_env.as_str()
    }

    /// How to restart the program: the arguments it was started with, without
    /// the program name, and the guard variable set to `"1"`.
    pub fn restart_plan<A>(&self, argv: Vec<A>) -> (p: RestartPlan<A>)
        ensures
            p.args@ == forwarded(argv@),
            argv@.len() > 0 ==> p.args@.len() == argv@.len() - 1,
            forall|i: int| 0 <= i < p.args@.len() ==> p.args@[i] == argv@[i + 1],
            p.env_key@ == self.spec_guard_env(),
            p.env_value@ == GUARD_VALUE@,
    {
        plan_restart(&self.guard_env, argv)
    }
}

/// The arguments of a program, without the program name in front.
pub open spec fn forwarded<A>(argv: Seq<A>) -> Seq<A> {
    if argv.len() == 0 {
        argv
    } else {
        argv.drop_first()
    }
}

/// How the freshly installed binary is started: with these arguments, and
/// with the variable `env_key` set to `env_value`.
pub struct RestartPlan<A> {
    pub args: Vec<A>,
    pub env_key: String,
    pub env_value: String,
}

/// The restart plan for a program started with `argv` whose guard variable is
/// `guard_env`.
pub fn plan_restart<A>(guard_env: &String, argv: Vec<A>) -> (p: RestartPlan<A>)
    ensures
        p.args@ == forwarded(argv@),
        argv@.len() == 0 ==> p.args@.len() == 0,
        argv@.len() > 0 ==> p.args@.len() == argv@.len() - 1,
        forall|i: int| 0 <= i < p.args@.len() ==> p.args@[i] == argv@[i + 1],
        p.env_key@ == guard_env@,
        p.env_value@ == GUARD_VALUE@,
{
    let mut args = argv;
    if args.len() > 0 {
        args.remove(0);
    }
    RestartPlan { args, env_key: guard_env.clone(), env_value: GUARD_VALUE.to_owned() }
}

/// The error of a restart that failed for the reason `detail`.
pub fn restart_failure(detail: &str) -> (e: UpdateError)
    ensures
        e matches UpdateError::Release(m) && m@ == RESTART_FAILURE_PREFIX@ + detail@,
{
    let mut message = RESTART_FAILURE_PREFIX.to_owned();
    message.append(detail);
    UpdateError::Release(message)
}

/// The exit code with which the program ends after the restarted program
/// ended with `code`; a program ended by a signal has no code and counts as 0.
pub fn exit_code(code: Option<i32>) -> (c: i32)
    ensures
        c == match code {
            Some(v) => v,
            None => 0,
        },
{
    match code {
        Some(v) => v,
        None => 0,
    }
}

/// Where a restart run stands.
pub enum RestartPhase<S> {
    /// Waiting for the lookup of the guard variable.
    AwaitGuard,
    /// Waiting for the wrapped check.
    AwaitCheck,
    /// Waiting for the restart after a check that gave this status.
    AwaitRestart(S),
}

/// What the caller reports back to a restart run.
pub enum RestartEvent<S, E> {
    /// Whether the guard variable is set.
    GuardLookedUp(bool),
    /// What the wrapped check gave.
    CheckFinished(Result<S, E>),
    /// What the restart gave; a successful restart does not return.
    RestartReturned(Result<(), E>),
}

/// What a restart run asks the caller to do next.
#[derive(Clone, Copy, Debug, PartialEq, Eq, Structural)]
pub enum RestartAction {
    /// Look up the guard variable.
    LookUpGuard,
    /// Run the wrapped check.
    RunCheck,
    /// Restart the program with the guard variable set.
    Restart,
}

/// The result of one step of a restart run.
pub enum RestartStep<S, E> {
    /// The run goes on in this phase with this action.
    Next(RestartPhase<S>, RestartAction),
    /// The run is over with this reply.
    Done(Reply<S, E>),
}

/// The action that a phase waits on.
pub open spec fn restart_pending<S>(phase: RestartPhase<S>) -> RestartAction {
    match phase {
        RestartPhase::AwaitGuard => RestartAction::LookUpGuard,
        RestartPhase::AwaitCheck => RestartAction::RunCheck,
        RestartPhase::AwaitRestart(_) => RestartAction::Restart,
    }
}

/// One step of a restart run. An event that the phase does not wait for
/// leaves the phase as it is and asks again for the pending action.
pub open spec fn restart_transition<S: Outcome, E>(
    phase: RestartPhase<S>,
    event: RestartEvent<S, E>,
) -> RestartStep<S, E> {
    match (phase, event) {
        (RestartPhase::AwaitGuard, RestartEvent::GuardLookedUp(set)) => if set {
            RestartStep::Done(Reply::UpToDate)
        } else {
            RestartStep::Next(RestartPhase::AwaitCheck, RestartAction::RunCheck)
        },
        (RestartPhase::AwaitCheck, RestartEvent::CheckFinished(result)) => match result {
            Ok(status) => if status.spec_updated() {
                RestartStep::Next(RestartPhase::AwaitRestart(status), RestartAction::Restart)
            } else {
                RestartStep::Done(Reply::Finished(Ok(status)))
            },
            Err(e) => RestartStep::Done(Reply::Finished(Err(e))),
        },
        (RestartPhase::AwaitRestart(status), RestartEvent::RestartReturned(result)) => match result {
            Ok(_) => RestartStep::Done(Reply::Finished(Ok(status))),
            Err(e) => RestartStep::Done(Reply::Finished(Err(e))),
        },
        (p, _) => RestartStep::Next(p, restart_pending(p)),
    }
}

/// The first phase and action of a restart run.
pub fn restart_start<S>() -> (r: (RestartPhase<S>, RestartAction))
    ensures
        r == (RestartPhase::<S>::AwaitGuard, RestartAction::LookUpGuard),
{
    (RestartPhase::AwaitGuard, RestartAction::LookUpGuard)
}

/// Advances a restart run by one event.
pub fn restart_step<S: Outcome, E>(phase: RestartPhase<S>, event: RestartEvent<S, E>) -> (r:
    RestartStep<S, E>)
    ensures
        r == restart_transition(phase, event),
{
    match phase {
        RestartPhase::AwaitGuard => match event {
            RestartEvent::GuardLookedUp(set) => if set {
                RestartStep::Done(Reply::UpToDate)
            } else {
                RestartStep::Next(RestartPhase::AwaitCheck, RestartAction::RunCheck)
            },
            _ => RestartStep::Next(RestartPhase::AwaitGuard, RestartAction::LookUpGuard),
        },
        RestartPhase::AwaitCheck => match event {
            RestartEvent::CheckFinished(result) => match result {
                Ok(status) => if status.updated() {
                    RestartStep::Next(RestartPhase::AwaitRestart(status), RestartAction::Restart)
                } else {
                    RestartStep::Done(Reply::Finished(Ok(status)))
                },
                Err(e) => RestartStep::Done(Reply::Finished(Err(e))),
            },
            _ => RestartStep::Next(RestartPhase::AwaitCheck, RestartAction::RunCheck),
        },
        RestartPhase::AwaitRestart(status) => match event {
            RestartEvent::RestartReturned(result) => match result {
                Ok(_) => RestartStep::Done(Reply::Finished(Ok(status))),
                Err(e) => RestartStep::Done(Reply::Finished(Err(e))),
            },
            _ => RestartStep::Next(RestartPhase::AwaitRestart(status), RestartAction::Restart),
        },
    }
}

/// A run that finds the guard variable set replies up to date: it neither
/// runs the wrapped check nor restarts. A run that finds it unset runs the
/// check next.
pub proof fn lemma_guard_decides_check<S: Outcome, E>(guard_set: bool)
    ensures
        restart_transition::<S, E>(RestartPhase::AwaitGuard, RestartEvent::GuardLookedUp(guard_set))
            == if guard_set {
            RestartStep::<S, E>::Done(Reply::UpToDate)
        } else {
            RestartStep::<S, E>::Next(RestartPhase::AwaitCheck, RestartAction::RunCheck)
        },
{
}

/// A run asks for a restart only right after a check that installed a
/// release, remembering that check's status, or again while it still waits
/// for that restart.
pub proof fn lemma_restart_only_after_update<S: Outcome, E>(
    phase: RestartPhase<S>,
    event: RestartEvent<S, E>,
    next: RestartPhase<S>,
)
    requires
        restart_transition(phase, event) == RestartStep::<S, E>::Next(next, RestartAction::Restart),
    ensures
        ({
            ||| (phase is AwaitCheck && (event matches RestartEvent::CheckFinished(Ok(s))
                && s.spec_updated() && next == RestartPhase::AwaitRestart(s)))
            ||| (phase is AwaitRestart && next == phase)
        }),
{
}

/// A check that failed, or that installed nothing, is handed back unchanged,
/// without a restart.
pub proof fn lemma_check_result_handed_back<S: Outcome, E>(result: Result<S, E>)
    requires
        !(result matches Ok(s) && s.spec_updated()),
    ensures
        restart_transition(RestartPhase::AwaitCheck, RestartEvent::CheckFinished(result))
            == RestartStep::<S, E>::Done(Reply::Finished(result)),
{
}

/// After a restart that returned, the run hands back the error of the
/// restart, or, should the restart return without one, the status of the
/// check that installed the release.
pub proof fn lemma_restart_result_handed_back<S: Outcome, E>(status: S, result: Result<(), E>)
    ensures
        restart_transition(RestartPhase::AwaitRestart(status), RestartEvent::RestartReturned(result))
            == RestartStep::<S, E>::Done(
            Reply::Finished(
                match result {
                    Ok(_) => Ok(status),
                    Err(e) => Err(e),
                },
            ),
        ),
{
}

/// The program restarted by a plan runs in an environment where the guard
/// variable is set, so its run replies up to date without checking or
/// restarting again: an update happens at most once per launch.
pub proof fn lemma_restarted_program_skips_update<A, S: Outcome, E>(
    guard_env: Seq<char>,
    plan: RestartPlan<A>,
    env: Map<Seq<char>, Seq<char>>,
)
    requires
        plan.env_key@ == guard_env,
    ensures
        ({
            let restarted_env = env.insert(plan.env_key@, plan.env_value@);
            &&& restarted_env.dom().contains(guard_env)
            &&& restart_transition::<S, E>(
                RestartPhase::AwaitGuard,
                RestartEvent::GuardLookedUp(restarted_env.dom().contains(guard_env)),
            ) == RestartStep::<S, E>::Done(Reply::UpToDate)
        }),
{
}

/// The forwarded arguments are the program's arguments without the program
/// name: one fewer than given, each the one after it in `argv`; nothing is
/// forwarded from an empty `argv`.
pub proof fn lemma_forwarded_drops_program_name<A>(argv: Seq<A>)
    ensures
        argv.len() == 0 ==> forwarded(argv).len() == 0,
        argv.len() > 0 ==> forwarded(argv).len() == argv.len() - 1,
        forall|i: int| 0 <= i < forwarded(argv).len() ==> forwarded(argv)[i] == argv[i + 1],
        argv.len() > 0 ==> argv == seq![argv[0]] + forwarded(argv),
{
    if argv.len() > 0 {
        assert(argv =~= seq![argv[0]] + argv.drop_first());
    }
}

/// A check that reports `Status::Updated`, whatever its version, is followed
/// by a restart that remembers that status; a check that reports
/// `Status::UpToDate` is handed back without one.
pub proof fn lemma_status_restarts_exactly_when_updated<E>(version: String)
    ensures
        restart_transition(
            RestartPhase::AwaitCheck,
            RestartEvent::<Status, E>::CheckFinished(Ok(Status::Updated(version))),
        ) == RestartStep::<Status, E>::Next(
            RestartPhase::AwaitRestart(Status::Updated(version)),
            RestartAction::Restart,
        ),
        restart_transition(
            RestartPhase::AwaitCheck,
            RestartEvent::<Status, E>::CheckFinished(Ok(Status::UpToDate(version))),
        ) == RestartStep::<Status, E>::Done(Reply::Finished(Ok(Status::UpToDate(version)))),
{
}

/// A check that installed a release is followed by a restart; a check that
/// installed nothing is handed back without one.
pub proof fn lemma_extended_restarts_exactly_when_installed<R, E>(release: R)
    ensures
        restart_transition(
            RestartPhase::AwaitCheck,
            RestartEvent::<UpdateStatus<R>, E>::CheckFinished(Ok(UpdateStatus::Updated(release))),
        ) == RestartStep::<UpdateStatus<R>, E>::Next(
            RestartPhase::AwaitRestart(UpdateStatus::Updated(release)),
            RestartAction::Restart,
        ),
        restart_transition(
            RestartPhase::AwaitCheck,
            RestartEvent::<UpdateStatus<R>, E>::CheckFinished(Ok(UpdateStatus::UpToDate)),
        ) == RestartStep::<UpdateStatus<R>, E>::Done(Reply::Finished(Ok(UpdateStatus::UpToDate))),
{
}

} // verus!
