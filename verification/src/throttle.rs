//! Throttle wrapper: limits how often update checks run.
//!
//! The time of the last check is recorded by touching a throttle file. A run
//! of the wrapper is a small state machine: it first reads how long ago the
//! throttle file was last modified; within the throttle window the run
//! replies up to date without checking. Otherwise the wrapped check runs and,
//! as the policy says, is recorded before its result is handed back.

use vstd::prelude::*;

use crate::outcome::{Reply, UpdateError};
use crate::time::Duration;

verus! {

/// Default minimum time between update checks, in seconds: 15 minutes.
pub const DEFAULT_THROTTLE_WINDOW_SECS: u64 = 900;

/// Ending of the name of the throttle file, after the binary's name.
pub const THROTTLE_FILE_SUFFIX: &'static str = ".throttle";

/// Message of the error that `build` gives without a release update.
pub const MISSING_RELEASE_UPDATE: &'static str = "`release_update` required";

/// The default throttle window.
pub fn default_throttle_window() -> (w: Duration)
    ensures
        w@ == DEFAULT_THROTTLE_WINDOW_SECS * 1_000_000_000,
{
    Duration::from_secs(DEFAULT_THROTTLE_WINDOW_SECS)
}

/// The name of the throttle file of the binary `bin_name`.
pub fn throttle_file_name(bin_name: &str) -> (n: String)
    ensures
        n@ == bin_name@ + THROTTLE_FILE_SUFFIX@,
{
    let mut name = bin_name.to_owned();
    name.append(THROTTLE_FILE_SUFFIX);
    name
}

/// Whether a check is due when the last recorded check lies `elapsed` in the
/// past; `None` when there is no usable record.
pub open spec fn check_due(window: Duration, elapsed: Option<Duration>) -> bool {
    match elapsed {
        Some(e) => e@ > window@,
        None => true,
    }
}

/// How a throttle decides: the minimum time between checks, and whether a
/// failed check is recorded like a successful one.
#[derive(Clone, Copy, Debug)]
pub struct ThrottlePolicy {
    pub window: Duration,
    pub record_failures: bool,
}

/// Where a throttled run stands.
pub enum ThrottlePhase<S, E> {
    /// Waiting for the age of the throttle record.
    AwaitRecord,
    /// Waiting for the wrapped check.
    AwaitCheck,
    /// Waiting for the check with this result to be recorded.
    AwaitRecording(Result<S, E>),
}

/// What the caller reports back to a throttled run.
pub enum ThrottleEvent<S, E> {
    /// How long ago the last check was recorded; `None` when there is no
    /// throttle file, its time cannot be read, or it lies in the future.
    RecordRead(Option<Duration>),
    /// What the wrapped check gave.
    CheckFinished(Result<S, E>),
    /// The throttle file was touched.
    Recorded,
}

/// What a throttled run asks the caller to do next.
#[derive(Clone, Copy, Debug, PartialEq, Eq, Structural)]
pub enum ThrottleAction {
    /// Read how long ago the throttle file was modified.
    ReadRecord,
    /// Run the wrapped check.
    RunCheck,
    /// Touch the throttle file.
    RecordCheck,
}

/// The result of one step of a throttled run.
pub enum ThrottleStep<S, E> {
    /// The run goes on in this phase with this action.
    Next(ThrottlePhase<S, E>, ThrottleAction),
    /// The run is over with this reply.
    Done(Reply<S, E>),
}

/// The action that a phase waits on.
pub open spec fn throttle_pending<S, E>(phase: ThrottlePhase<S, E>) -> ThrottleAction {
    match phase {
        ThrottlePhase::AwaitRecord => ThrottleAction::ReadRecord,
        ThrottlePhase::AwaitCheck => ThrottleAction::RunCheck,
        ThrottlePhase::AwaitRecording(_) => ThrottleAction::RecordCheck,
    }
}

/// Whether a check with this result is recorded under the policy.
pub open spec fn records<S, E>(policy: ThrottlePolicy, result: Result<S, E>) -> bool {
    result is Ok || policy.record_failures
}

/// One step of a throttled run. An event that the phase does not wait for
/// leaves the phase as it is and asks again for the pending action.
pub open spec fn throttle_transition<S, E>(
    policy: ThrottlePolicy,
    phase: ThrottlePhase<S, E>,
    event: ThrottleEvent<S, E>,
) -> ThrottleStep<S, E> {
    match (phase, event) {
        (ThrottlePhase::AwaitRecord, ThrottleEvent::RecordRead(elapsed)) => if check_due(
            policy.window,
            elapsed,
        ) {
            ThrottleStep::Next(ThrottlePhase::AwaitCheck, ThrottleAction::RunCheck)
        } else {
            ThrottleStep::Done(Reply::UpToDate)
        },
        (ThrottlePhase::AwaitCheck, ThrottleEvent::CheckFinished(result)) => if records(
            policy,
            result,
        ) {
            ThrottleStep::Next(ThrottlePhase::AwaitRecording(result), ThrottleAction::RecordCheck)
        } else {
            ThrottleStep::Done(Reply::Finished(result))
        },
        (ThrottlePhase::AwaitRecording(result), ThrottleEvent::Recorded) => ThrottleStep::Done(
            Reply::Finished(result),
        ),
        (p, _) => ThrottleStep::Next(p, throttle_pending(p)),
    }
}

impl ThrottlePolicy {
    /// Whether a check is due when the last recorded check lies `elapsed` in
    /// the past: only when the time since then is longer than the window.
    pub fn should_check(&self, elapsed: Option<Duration>) -> (b: bool)
        ensures
            b == check_due(self.window, elapsed),
            elapsed is None ==> b,
            elapsed matches Some(e) ==> (b <==> e@ > self.window@),
    {
        match elapsed {
            Some(e) => e.exceeds(&self.window),
            None => true,
        }
    }

    /// The first phase and action of a throttled run.
    pub fn start<S, E>(&self) -> (r: (ThrottlePhase<S, E>, ThrottleAction))
        ensures
            r == (ThrottlePhase::<S, E>::AwaitRecord, ThrottleAction::ReadRecord),
    {
        (ThrottlePhase::AwaitRecord, ThrottleAction::ReadRecord)
    }

    /// Advances a throttled run by one event.
    pub fn step<S, E>(&self, phase: ThrottlePhase<S, E>, event: ThrottleEvent<S, E>) -> (r:
        ThrottleStep<S, E>)
        ensures
            r == throttle_transition(*self, phase, event),
    {
        match phase {
            ThrottlePhase::AwaitRecord => match event {
                ThrottleEvent::RecordRead(elapsed) => if self.should_check(elapsed) {
                    ThrottleStep::Next(ThrottlePhase::AwaitCheck, ThrottleAction::RunCheck)
                } else {
                    ThrottleStep::Done(Reply::UpToDate)
                },
                _ => ThrottleStep::Next(ThrottlePhase::AwaitRecord, ThrottleAction::ReadRecord),
            },
            ThrottlePhase::AwaitCheck => match event {
                ThrottleEvent::CheckFinished(result) => {
                    let record = result.is_ok() || self.record_failures;
                    if record {
                        ThrottleStep::Next(
                            ThrottlePhase::AwaitRecording(result),
                            ThrottleAction::RecordCheck,
                        )
                    } else {
                        ThrottleStep::Done(Reply::Finished(result))
                    }
                },
                _ => ThrottleStep::Next(ThrottlePhase::AwaitCheck, ThrottleAction::RunCheck),
            },
            ThrottlePhase::AwaitRecording(result) => match event {
                ThrottleEvent::Recorded => ThrottleStep::Done(Reply::Finished(result)),
                _ => ThrottleStep::Next(
                    ThrottlePhase::AwaitRecording(result),
                    ThrottleAction::RecordCheck,
                ),
            },
        }
    }
}

/// Builder for a throttled [`Update`].
pub struct UpdateBuilder<R> {
    release_update: Option<R>,
    throttle_window: Option<Duration>,
}

/// Wraps a release update and skips update checks within the throttle window
/// of the last recorded check. Only successful checks are recorded, so a
/// failed check can be retried without waiting for the window to pass.
pub struct Update<R> {
    inner: R,
    throttle_window: Duration,
}

impl<R> UpdateBuilder<R> {
    /// The release update that the builder holds, if any.
    pub closed spec fn spec_release_update(&self) -> Option<R> {
        self.release_update
    }

    /// The throttle window that the builder was given, if any.
    pub closed spec fn spec_throttle_window(&self) -> Option<Duration> {
        self.throttle_window
    }

    /// A builder with nothing set.
    pub fn new() -> (b: Self)
        ensures
            b.spec_release_update() is None,
            b.spec_throttle_window() is None,
    {
        UpdateBuilder { release_update: None, throttle_window: None }
    }

    /// Sets the release update to wrap. Required.
    pub fn release_update(&mut self, release_update: R) -> (b: &mut Self)
        ensures
            b.spec_release_update() == Some(release_update),
            b.spec_throttle_window() == old(self).spec_throttle_window(),
            *final(self) == *final(b),
    {
        self.release_update = Some(release_update);
        self
    }

    /// Sets the minimum time between update checks. Defaults to 15 minutes.
    pub fn throttle_window(&mut self, window: Duration) -> (b: &mut Self)
        ensures
            b.spec_release_update() == old(self).spec_release_update(),
            b.spec_throttle_window() == Some(window),
            *final(self) == *final(b),
    {
        self.throttle_window = Some(window);
        self
    }

    /// Checks the configuration and creates the `Update`. Fails with a
    /// configuration error when no release update was set; the release update
    /// is taken out of the builder, the throttle window stays.
    pub fn build(&mut self) -> (r: Result<Update<R>, UpdateError>)
        ensures
            final(self).spec_release_update() is None,
            final(self).spec_throttle_window() == old(self).spec_throttle_window(),
            match old(self).spec_release_update() {
                Some(inner) => r matches Ok(u) && u.spec_inner() == inner && match old(
                    self,
                ).spec_throttle_window() {
                    Some(w) => u.spec_throttle_window() == w,
                    None => u.spec_throttle_window()@ == DEFAULT_THROTTLE_WINDOW_SECS
                        * 1_000_000_000,
                },
                None => r matches Err(UpdateError::Config(m)) && m@ == MISSING_RELEASE_UPDATE@,
            },
    {
        match self.release_update.take() {
            Some(inner) => {
                let throttle_window = match self.throttle_window {
                    Some(w) => w,
                    None => default_throttle_window(),
                };
                Ok(Update { inner, throttle_window })
            },
            None => Err(UpdateError::Config(MISSING_RELEASE_UPDATE.to_owned())),
        }
    }
}

impl<R> Default for UpdateBuilder<R> {
    /// A builder with nothing set.
    fn default() -> (b: Self)
        ensures
            b.spec_release_update() is None,
            b.spec_throttle_window() is None,
    {
        UpdateBuilder::new()
    }
}

impl<R> Update<R> {
    /// The wrapped release update.
    pub closed spec fn spec_inner(&self) -> R {
        self.inner
    }

    /// The minimum time between update checks.
    pub closed spec fn spec_throttle_window(&self) -> Duration {
        self.throttle_window
    }

    /// A builder for an `Update`.
    pub fn configure() -> (b: UpdateBuilder<R>)
        ensures
            b.spec_release_update() is None,
            b.spec_throttle_window() is None,
    {
        UpdateBuilder::new()
    }

    /// The wrapped release update.
    pub fn inner(&self) -> (r: &R)
        ensures
            *r == self.spec_inner(),
    {
        &self.inner
    }

    /// The policy of this throttle: its window, and only successful checks
    /// are recorded.
    pub fn policy(&self) -> (p: ThrottlePolicy)
        ensures
            p.window == self.spec_throttle_window(),
            !p.record_failures,
    {
        ThrottlePolicy { window: self.throttle_window, record_failures: false }
    }

    /// Whether enough time has passed since the last recorded check, which
    /// lies `elapsed` in the past, to check for an update.
    pub fn should_check(&self, elapsed: Option<Duration>) -> (b: bool)
        ensures
            b == check_due(self.spec_throttle_window(), elapsed),
            elapsed is None ==> b,
            elapsed matches Some(e) ==> (b <==> e@ > self.spec_throttle_window()@),
    {
        self.policy().should_check(elapsed)
    }
}

/// A check is skipped while the last recorded check lies no more than the
/// throttle window in the past: the run replies up to date.
pub proof fn lemma_skipped_within_window<S, E>(policy: ThrottlePolicy, elapsed: Duration)
    requires
        elapsed@ <= policy.window@,
    ensures
        throttle_transition(
            policy,
            ThrottlePhase::<S, E>::AwaitRecord,
            ThrottleEvent::RecordRead(Some(elapsed)),
        )
            == ThrottleStep::<S, E>::Done(Reply::UpToDate),
{
}

/// The check runs when there is no usable record of the last one, or when
/// that record is older than the throttle window; a run reaches the check in
/// no other way.
pub proof fn lemma_check_runs_only_when_due<S, E>(
    policy: ThrottlePolicy,
    phase: ThrottlePhase<S, E>,
    event: ThrottleEvent<S, E>,
)
    ensures
        event matches ThrottleEvent::RecordRead(elapsed) ==> (throttle_transition(
            policy,
            ThrottlePhase::AwaitRecord,
            event,
        ) == ThrottleStep::<S, E>::Next(ThrottlePhase::AwaitCheck, ThrottleAction::RunCheck)
            <==> check_due(policy.window, elapsed)),
        (phase is AwaitRecord && (throttle_transition(policy, phase, event) matches ThrottleStep::Next(
            _,
            ThrottleAction::RunCheck,
        ))) ==> (event matches ThrottleEvent::RecordRead(elapsed) && check_due(
            policy.window,
            elapsed,
        )),
{
}

/// A successful check is always recorded; a failed one only when the policy
/// records failures, so that otherwise it can be retried at once. A check
/// that is not recorded is handed back unchanged.
pub proof fn lemma_recorded_checks<S, E>(policy: ThrottlePolicy, result: Result<S, E>)
    ensures
        throttle_transition(policy, ThrottlePhase::AwaitCheck, ThrottleEvent::CheckFinished(result))
            == if result is Ok || policy.record_failures {
            ThrottleStep::<S, E>::Next(
                ThrottlePhase::AwaitRecording(result),
                ThrottleAction::RecordCheck,
            )
        } else {
            ThrottleStep::<S, E>::Done(Reply::Finished(result))
        },
{
}

/// Once the check is recorded, the run hands back exactly what the check gave.
pub proof fn lemma_result_handed_back<S, E>(policy: ThrottlePolicy, result: Result<S, E>)
    ensures
        throttle_transition(policy, ThrottlePhase::AwaitRecording(result), ThrottleEvent::Recorded)
            == ThrottleStep::<S, E>::Done(Reply::Finished(result)),
{
}

/// A check recorded at `recorded_at` throttles every later run at `now` that
/// lies within the window of it: that run replies up to date.
pub proof fn lemma_recorded_check_throttles_next_run<S, E>(
    policy: ThrottlePolicy,
    recorded_at: Duration,
    now: Duration,
    elapsed: Duration,
)
    requires
        recorded_at@ <= now@,
        elapsed@ == now@ - recorded_at@,
        now@ <= recorded_at@ + policy.window@,
    ensures
        throttle_transition(
            policy,
            ThrottlePhase::<S, E>::AwaitRecord,
            ThrottleEvent::RecordRead(Some(elapsed)),
        )
            == ThrottleStep::<S, E>::Done(Reply::UpToDate),
{
}

/// A check is due exactly when there is no usable record of the last one or
/// when that record lies strictly longer than the window in the past: every
/// elapsed time beyond the window makes a check due, every elapsed time
/// within it does not.
pub proof fn lemma_due_exactly_beyond_window(window: Duration, elapsed: Duration)
    ensures
        check_due(window, None),
        check_due(window, Some(elapsed)) <==> elapsed@ > window@,
        elapsed@ > window@ ==> check_due(window, Some(elapsed)),
        elapsed@ <= window@ ==> !check_due(window, Some(elapsed)),
{
}

/// Once the check is due it stays due: a record that is older still makes a
/// check due as well.
pub proof fn lemma_due_is_monotone(window: Duration, older: Duration, newer: Duration)
    requires
        newer@ <= older@,
        check_due(window, Some(newer)),
    ensures
        check_due(window, Some(older)),
{
}

/// A run that reads a record older than the window, or no usable record,
/// runs the check; one that reads a record within the window replies up to
/// date without running it.
pub proof fn lemma_run_checks_beyond_window<S, E>(policy: ThrottlePolicy, elapsed: Option<Duration>)
    ensures
        throttle_transition(policy, ThrottlePhase::<S, E>::AwaitRecord, ThrottleEvent::RecordRead(elapsed))
            == if (elapsed matches Some(e) && e@ <= policy.window@) {
            ThrottleStep::<S, E>::Done(Reply::UpToDate)
        } else {
            ThrottleStep::<S, E>::Next(ThrottlePhase::AwaitCheck, ThrottleAction::RunCheck)
        },
{
}

} // verus!
