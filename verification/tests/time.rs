use self_update_extras::Duration;

#[test]
fn from_secs_has_no_subsecond_part() {
    let d = Duration::from_secs(900);
    assert_eq!(d.as_secs(), 900);
    assert_eq!(d.subsec_nanos(), 0);
}

#[test]
fn new_carries_whole_seconds_out_of_the_nanoseconds() {
    let d = Duration::new(1, 2_500_000_000);
    assert_eq!(d.as_secs(), 3);
    assert_eq!(d.subsec_nanos(), 500_000_000);
    let d = Duration::new(u64::MAX, 999_999_999);
    assert_eq!(d.as_secs(), u64::MAX);
    assert_eq!(d.subsec_nanos(), 999_999_999);
}

#[test]
fn exceeds_is_strictly_longer() {
    let a = Duration::new(2, 0);
    let b = Duration::new(1, 999_999_999);
    assert!(a.exceeds(&b));
    assert!(!b.exceeds(&a));
    assert!(!a.exceeds(&a));
    assert!(Duration::new(1, 5).exceeds(&Duration::new(1, 4)));
}
