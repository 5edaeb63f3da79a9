use self_update::update::ReleaseUpdate;
use self_update_extras::throttle::{
    throttle_file_name, ThrottleAction, ThrottleEvent, ThrottlePhase, ThrottlePolicy, ThrottleStep,
    Update, DEFAULT_THROTTLE_WINDOW_SECS,
};
use self_update_extras::{Duration, Reply, Status, UpdateError};

/// Drives a throttled run: reading the record gives `elapsed`, the check
/// gives `check`. Returns the reply, how often the check ran and whether the
/// check was recorded.
fn drive(
    policy: ThrottlePolicy,
    elapsed: Option<Duration>,
    check: Result<Status, String>,
) -> (Reply<Status, String>, usize, bool) {
    let (mut phase, mut action) = policy.start::<Status, String>();
    let mut checks = 0;
    let mut recorded = false;
    loop {
        let event = match action {
            ThrottleAction::ReadRecord => ThrottleEvent::RecordRead(elapsed),
            ThrottleAction::RunCheck => {
                checks += 1;
                ThrottleEvent::CheckFinished(check.clone())
            }
            ThrottleAction::RecordCheck => {
                recorded = true;
                ThrottleEvent::Recorded
            }
        };
        match policy.step(phase, event) {
            ThrottleStep::Next(p, a) => {
                phase = p;
                action = a;
            }
            ThrottleStep::Done(reply) => return (reply, checks, recorded),
        }
    }
}

struct MockRelease {
    bin_name: String,
}

impl MockRelease {
    fn new(bin_name: &str) -> Self {
        MockRelease { bin_name: bin_name.to_string() }
    }
}

fn concrete(mock: MockRelease, window: Duration) -> Update<MockRelease> {
    Update::configure().release_update(mock).throttle_window(window).build().unwrap()
}

fn default_window() -> Duration {
    Duration::from_secs(15 * 60)
}

/// The time since a throttle file that was touched just now.
fn just_now() -> Option<Duration> {
    Some(Duration::new(0, 1_000))
}

fn up_to_date() -> Result<Status, String> {
    Ok(Status::UpToDate("1.0.0".to_string()))
}

#[test]
fn throttle_should_check_is_true_without_a_throttle_file() {
    let updater = concrete(MockRelease::new("mock-throttle-missing"), default_window());
    assert!(updater.should_check(None));
}

#[test]
fn throttle_should_check_is_false_with_a_recent_throttle_file() {
    let updater = concrete(MockRelease::new("mock-throttle-recent"), default_window());
    assert!(!updater.should_check(just_now()));
}

#[test]
fn throttle_should_check_is_true_with_an_expired_throttle_file() {
    let updater = concrete(MockRelease::new("mock-throttle-expired"), Duration::from_secs(60));
    assert!(updater.should_check(Some(Duration::from_secs(120))));
}

#[test]
fn throttle_update_runs_inner_and_touches_throttle_when_allowed() {
    let updater = concrete(MockRelease::new("mock-throttle-run"), default_window());
    let (reply, calls, touched) = drive(updater.policy(), None, up_to_date());
    assert!(matches!(reply, Reply::Finished(Ok(Status::UpToDate(_)))));
    assert_eq!(calls, 1);
    assert!(touched, "throttle file should be touched after a check");
}

#[test]
fn throttle_update_skips_inner_when_throttled() {
    let updater = concrete(MockRelease::new("mock-throttle-skip"), default_window());
    let (reply, calls, _) = drive(updater.policy(), just_now(), up_to_date());
    assert!(matches!(reply, Reply::UpToDate));
    assert_eq!(calls, 0);
}

#[test]
fn throttle_build_requires_a_release_update() {
    assert!(Update::<Box<dyn ReleaseUpdate>>::configure().build().is_err());
}

#[test]
fn throttle_builder_wraps_the_release_update() {
    let updater = Update::configure()
        .release_update(MockRelease::new("mock-throttle-builder"))
        .throttle_window(Duration::from_secs(60))
        .build()
        .unwrap();
    assert_eq!(updater.inner().bin_name, "mock-throttle-builder");
    let (_, calls, _) = drive(updater.policy(), None, up_to_date());
    assert_eq!(calls, 1);
}

#[test]
fn throttle_build_without_release_update_gives_config_error() {
    match Update::<u8>::configure().throttle_window(Duration::from_secs(1)).build() {
        Err(UpdateError::Config(m)) => assert_eq!(m, "`release_update` required"),
        _ => panic!("expected a configuration error"),
    }
}

#[test]
fn build_uses_the_default_window_and_takes_the_release_update() {
    let mut builder = Update::configure();
    builder.release_update(5u8);
    let u = builder.build().unwrap();
    assert_eq!(u.policy().window.as_secs(), DEFAULT_THROTTLE_WINDOW_SECS);
    assert_eq!(u.policy().window.as_secs(), 900);
    assert_eq!(u.policy().window.subsec_nanos(), 0);
    assert_eq!(*u.inner(), 5);
    assert!(builder.build().is_err());
}

#[test]
fn failed_check_is_not_recorded() {
    let updater = concrete(MockRelease::new("mock-throttle-fail"), default_window());
    assert!(!updater.policy().record_failures);
    let (reply, calls, recorded) = drive(updater.policy(), None, Err("network".to_string()));
    assert!(matches!(reply, Reply::Finished(Err(ref e)) if e == "network"));
    assert_eq!(calls, 1);
    assert!(!recorded);
}

#[test]
fn window_boundary_is_still_throttled() {
    let policy = ThrottlePolicy { window: Duration::from_secs(60), record_failures: false };
    assert!(!policy.should_check(Some(Duration::from_secs(60))));
    assert!(policy.should_check(Some(Duration::new(60, 1))));
    assert!(!policy.should_check(Some(Duration::new(59, 999_999_999))));
}

#[test]
fn zero_window_checks_after_any_time() {
    let policy = ThrottlePolicy { window: Duration::from_secs(0), record_failures: false };
    assert!(!policy.should_check(Some(Duration::from_secs(0))));
    assert!(policy.should_check(Some(Duration::new(0, 1))));
}

#[test]
fn recorded_check_throttles_the_next_run() {
    let policy = ThrottlePolicy { window: Duration::from_secs(60), record_failures: false };
    let (_, _, recorded) = drive(policy, None, up_to_date());
    assert!(recorded);
    // 30 seconds later the record is within the window.
    let (reply, calls, _) = drive(policy, Some(Duration::from_secs(30)), up_to_date());
    assert!(matches!(reply, Reply::UpToDate));
    assert_eq!(calls, 0);
}

#[test]
fn throttle_unexpected_event_asks_again() {
    let policy = ThrottlePolicy { window: Duration::from_secs(60), record_failures: true };
    match policy.step::<Status, String>(ThrottlePhase::AwaitRecord, ThrottleEvent::Recorded) {
        ThrottleStep::Next(ThrottlePhase::AwaitRecord, ThrottleAction::ReadRecord) => {}
        _ => panic!("the run must keep waiting for the record"),
    }
}

#[test]
fn throttle_file_is_named_after_the_binary() {
    assert_eq!(throttle_file_name("mock-throttle-builder"), "mock-throttle-builder.throttle");
    assert_eq!(throttle_file_name(""), ".throttle");
}
