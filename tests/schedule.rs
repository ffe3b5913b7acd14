use take_a_break::schedule::{
    plan_from_now, resolve, Plan, ScheduleError, AUDIO_HOLD_MS, MAX_MINUTES, SAFETY_MARGIN_MS,
};

#[test]
fn resolve_positive_duration_targets_minutes_later() {
    let p = resolve(1_000, 5).unwrap();
    assert_eq!(
        p,
        Plan { origin_ms: 1_000, target_ms: 301_000, wait_ms: 300_000, guard_ms: 305_000 }
    );
}

#[test]
fn resolve_zero_fires_at_once() {
    let p = resolve(42, 0).unwrap();
    assert_eq!(p.target_ms, 42);
    assert_eq!(p.wait_ms, 0);
    assert_eq!(p.guard_ms, 5_000);
}

#[test]
fn resolve_negative_is_clamped_to_zero_wait() {
    let p = resolve(1_000_000, -3).unwrap();
    assert_eq!(p.target_ms, 1_000_000 - 180_000);
    assert_eq!(p.wait_ms, 0);
    assert_eq!(p.guard_ms, SAFETY_MARGIN_MS);
}

#[test]
fn resolve_most_negative_duration() {
    let p = resolve(0, i64::MIN).unwrap();
    assert_eq!(p.target_ms, i64::MIN as i128 * 60_000);
    assert_eq!(p.wait_ms, 0);
}

#[test]
fn resolve_longest_duration() {
    let p = resolve(0, MAX_MINUTES).unwrap();
    assert_eq!(p.wait_ms, 153_722_867_280_912 * 60_000);
    assert!(p.wait_ms <= i64::MAX as u64);
    assert_eq!(p.guard_ms, p.wait_ms + 5_000);
}

#[test]
fn resolve_too_long_duration_is_rejected() {
    assert_eq!(resolve(0, MAX_MINUTES + 1), Err(ScheduleError::TooLong));
    assert_eq!(resolve(7, i64::MAX), Err(ScheduleError::TooLong));
}

#[test]
fn plan_from_now_shares_one_origin() {
    let p = plan_from_now(10).unwrap();
    assert_eq!(p.wait_ms, 600_000);
    assert_eq!(p.target_ms - p.origin_ms as i128, 600_000);
    assert_eq!(p.guard_ms, 605_000);
    assert!(p.origin_ms > 0);
}

#[test]
fn guard_outlasts_worker_by_margin() {
    for minutes in [-5i64, 0, 1, 30, 1_440] {
        let p = resolve(123_456, minutes).unwrap();
        assert_eq!(p.guard_ms - p.wait_ms, SAFETY_MARGIN_MS);
        assert!(p.guard_ms > p.wait_ms + AUDIO_HOLD_MS);
    }
}

#[test]
fn plan_from_now_refuses_too_long_duration() {
    assert_eq!(plan_from_now(MAX_MINUTES + 1), Err(ScheduleError::TooLong));
}
