//! Self-updating support for command-line programs: a throttle that limits how
//! often update checks run, and a restart guard that re-executes the program
//! once after a successful update.

use vstd::prelude::*;

pub mod outcome;
pub mod restart;
pub mod throttle;
pub mod time;

pub use outcome::{Outcome, Reply, Status, UpdateError, UpdateStatus};
pub use time::Duration;

use restart::{plan_restart, RestartPlan};
use throttle::{default_throttle_window, check_due, ThrottlePolicy, DEFAULT_THROTTLE_WINDOW_SECS};

verus! {

/// Guard variable of a [`RestartUpdate`] that was given none.
pub const DEFAULT_GUARD_ENV: &'static str = "AUTO_UPDATE_GUARD";

/// Wraps a release update and restarts the program with the newly installed
/// binary after a successful update.
pub struct RestartUpdate<R> {
    inner: R,
    /// Environment variable set on the re-executed program to prevent
    /// restart loops.
    guard_env: String,
}

impl<R> RestartUpdate<R> {
    /// The wrapped release update.
    pub closed spec fn spec_inner(&self) -> R {
        self.inner
    }

    /// The name of the guard variable.
    pub closed spec fn spec_guard_env(&self) -> Seq<char> {
        self.guard_env@
    }

    /// Creates a new updater wrapping the given release update.
    pub fn new(inner: R) -> (u: Self)
        ensures
            u.spec_inner() == inner,
            u.spec_guard_env() == DEFAULT_GUARD_ENV@,
    {
        RestartUpdate { inner, guard_env: DEFAULT_GUARD_ENV.to_owned() }
    }

    /// Sets the name of the guard variable.
    pub fn guard_env(self, env: &str) -> (u: Self)
        ensures
            u.spec_inner() == self.spec_inner(),
            u.spec_guard_env() == env@,
    {
        RestartUpdate { inner: self.inner, guard_env: env.to_owned() }
    }

    /// The wrapped release update.
    pub fn inner(&self) -> (r: &R)
        ensures
            *r == self.spec_inner(),
    {
        &self.inner
    }

    /// The name of the guard variable.
    pub fn guard_env_name(&self) -> (g: &str)
        ensures
            g@ == self.spec_guard_env(),
    {
        self.guard_env.as_str()
    }

    /// How to restart the program: the arguments it was started with, without
    /// the program name, and the guard variable set to `"1"`.
    pub fn restart_plan<A>(&self, argv: Vec<A>) -> (p: RestartPlan<A>)
        ensures
            p.args@ == restart::forwarded(argv@),
            argv@.len() > 0 ==> p.args@.len() == argv@.len() - 1,
            forall|i: int| 0 <= i < p.args@.len() ==> p.args@[i] == argv@[i + 1],
            p.env_key@ == self.spec_guard_env(),
            p.env_value@ == restart::GUARD_VALUE@,
    {
        plan_restart(&self.guard_env, argv)
    }
}

/// Wraps a release update and throttles how often update checks run. The
/// check is skipped when one was performed within the throttle window; every
/// check that runs is recorded, whatever it gave.
pub struct ThrottledUpdate<R> {
    inner: R,
    /// Minimum time between update checks. Defaults to 15 minutes.
    throttle_window: Duration,
}

impl<R> ThrottledUpdate<R> {
    /// The wrapped release update.
    pub closed spec fn spec_inner(&self) -> R {
        self.inner
    }

    /// The minimum time between update checks.
    pub closed spec fn spec_throttle_window(&self) -> Duration {
        self.throttle_window
    }

    /// Creates a new updater wrapping the given release update, with a
    /// throttle window of 15 minutes.
    pub fn new(inner: R) -> (u: Self)
        ensures
            u.spec_inner() == inner,
            u.spec_throttle_window()@ == DEFAULT_THROTTLE_WINDOW_SECS * 1_000_000_000,
    {
        ThrottledUpdate { inner, throttle_window: default_throttle_window() }
    }

    /// Sets the throttle window.
    pub fn throttle_window(self, window: Duration) -> (u: Self)
        ensures
            u.spec_inner() == self.spec_inner(),
            u.spec_throttle_window() == window,
    {
        ThrottledUpdate { inner: self.inner, throttle_window: window }
    }

    /// The wrapped release update.
    pub fn inner(&self) -> (r: &R)
        ensures
            *r == self.spec_inner(),
    {
        &self.inner
    }

    /// The policy of this throttle: its window, and every check is recorded.
    pub fn policy(&self) -> (p: ThrottlePolicy)
        ensures
            p.window == self.spec_throttle_window(),
            p.record_failures,
    {
        ThrottlePolicy { window: self.throttle_window, record_failures: true }
    }

    /// Whether enough time has passed since the last recorded check, which
    /// lies `elapsed` in the past, to check for an update.
    pub fn should_check(&self, elapsed: Option<Duration>) -> (b: bool)
        ensures
            b == check_due(self.spec_throttle_window(), elapsed),
            elapsed is None ==> b,
            elapsed matches Some(e) ==> (b <==> e@ > self.spec_throttle_window()@),
    {
        self.policy().should_check(elapsed)
    }
}

} // verus!
