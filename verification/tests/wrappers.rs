use self_update_extras::throttle::{ThrottleAction, ThrottleEvent, ThrottlePolicy, ThrottleStep};
use self_update_extras::{Duration, Reply, RestartUpdate, Status, ThrottledUpdate, UpdateStatus};

struct MockRelease {
    bin_name: String,
}

impl MockRelease {
    fn new(bin_name: &str) -> Self {
        MockRelease { bin_name: bin_name.to_string() }
    }
}

fn drive<S: Clone>(
    policy: ThrottlePolicy,
    elapsed: Option<Duration>,
    check: Result<S, String>,
) -> (Reply<S, String>, usize, bool) {
    let (mut phase, mut action) = policy.start::<S, String>();
    let mut checks = 0;
    let mut recorded = false;
    loop {
        let event = match action {
            ThrottleAction::ReadRecord => ThrottleEvent::RecordRead(elapsed),
            ThrottleAction::RunCheck => {
                checks += 1;
                ThrottleEvent::CheckFinished(check.clone())
            }
            ThrottleAction::RecordCheck => {
                recorded = true;
                ThrottleEvent::Recorded
            }
        };
        match policy.step(phase, event) {
            ThrottleStep::Next(p, a) => {
                phase = p;
                action = a;
            }
            ThrottleStep::Done(reply) => return (reply, checks, recorded),
        }
    }
}

fn just_now() -> Option<Duration> {
    Some(Duration::new(0, 1_000))
}

#[test]
fn lib_should_check_is_true_without_a_throttle_file() {
    let updater = ThrottledUpdate::new(MockRelease::new("mock-throttle-missing"));
    assert!(updater.should_check(None));
}

#[test]
fn lib_should_check_is_false_with_a_recent_throttle_file() {
    let updater = ThrottledUpdate::new(MockRelease::new("mock-throttle-recent"));
    assert!(!updater.should_check(just_now()));
}

#[test]
fn lib_should_check_is_true_with_an_expired_throttle_file() {
    let updater = ThrottledUpdate::new(MockRelease::new("mock-throttle-expired"))
        .throttle_window(Duration::from_secs(60));
    assert!(updater.should_check(Some(Duration::from_secs(120))));
}

#[test]
fn lib_update_runs_inner_and_touches_throttle_when_allowed() {
    let updater = ThrottledUpdate::new(MockRelease::new("mock-throttle-run"));
    let (reply, calls, touched) =
        drive(updater.policy(), None, Ok(Status::UpToDate("1.0.0".to_string())));
    assert!(matches!(reply, Reply::Finished(Ok(Status::UpToDate(_)))));
    assert_eq!(calls, 1);
    assert!(touched, "throttle file should be touched after a check");
}

#[test]
fn lib_update_skips_inner_when_throttled() {
    let updater = ThrottledUpdate::new(MockRelease::new("mock-throttle-skip"));
    let (reply, calls, _) =
        drive(updater.policy(), just_now(), Ok(Status::UpToDate("1.0.0".to_string())));
    assert!(matches!(reply, Reply::UpToDate));
    assert_eq!(calls, 0);
}

#[test]
fn lib_update_extended_runs_inner_when_allowed() {
    let updater = ThrottledUpdate::new(MockRelease::new("mock-throttle-run-ext"));
    let (reply, calls, touched) = drive::<UpdateStatus<String>>(updater.policy(), None, Ok(UpdateStatus::UpToDate));
    assert!(matches!(reply, Reply::Finished(Ok(UpdateStatus::UpToDate))));
    assert_eq!(calls, 1);
    assert!(touched);
}

#[test]
fn lib_update_extended_skips_inner_when_throttled() {
    let updater = ThrottledUpdate::new(MockRelease::new("mock-throttle-skip-ext"));
    let (reply, calls, _) =
        drive::<UpdateStatus<String>>(updater.policy(), just_now(), Ok(UpdateStatus::UpToDate));
    assert!(matches!(reply, Reply::UpToDate));
    assert_eq!(calls, 0);
}

#[test]
fn throttled_update_records_failed_checks() {
    let updater = ThrottledUpdate::new(MockRelease::new("mock-throttle-fail"));
    assert!(updater.policy().record_failures);
    let (reply, calls, recorded) = drive::<Status>(updater.policy(), None, Err("network".to_string()));
    assert!(matches!(reply, Reply::Finished(Err(_))));
    assert_eq!(calls, 1);
    assert!(recorded);
}

#[test]
fn throttled_update_defaults() {
    let updater = ThrottledUpdate::new(MockRelease::new("mock-defaults"));
    assert_eq!(updater.policy().window.as_secs(), 15 * 60);
    assert_eq!(updater.inner().bin_name, "mock-defaults");
    let updater = updater.throttle_window(Duration::new(5, 250));
    assert_eq!(updater.policy().window.as_secs(), 5);
    assert_eq!(updater.policy().window.subsec_nanos(), 250);
    assert_eq!(updater.inner().bin_name, "mock-defaults");
}

#[test]
fn restart_update_defaults_and_guard_env() {
    let updater = RestartUpdate::new(MockRelease::new("mock-guard"));
    assert_eq!(updater.guard_env_name(), "AUTO_UPDATE_GUARD");
    let updater = updater.guard_env("HYPER_MCP_AUTO_UPDATED");
    assert_eq!(updater.guard_env_name(), "HYPER_MCP_AUTO_UPDATED");
    assert_eq!(updater.inner().bin_name, "mock-guard");
    let plan = updater.restart_plan(vec!["app", "serve"]);
    assert_eq!(plan.args, vec!["serve"]);
    assert_eq!(plan.env_key, "HYPER_MCP_AUTO_UPDATED");
    assert_eq!(plan.env_value, "1");
}
