//! Turning a requested duration into an absolute target time, the wait the
//! delivery worker sleeps for, and the longer wait of the lifecycle guard.
use vstd::prelude::*;

verus! {

/// Milliseconds in one minute.
pub const MILLIS_PER_MINUTE: i64 = 60_000;

/// Extra time the lifecycle guard waits beyond the delivery wait.
pub const SAFETY_MARGIN_MS: u64 = 5_000;

/// How long audio playback holds the output device after submitting the clip.
pub const AUDIO_HOLD_MS: u64 = 1_000;

/// The longest duration, in minutes, whose span in milliseconds fits in an `i64`.
pub const MAX_MINUTES: i64 = 153_722_867_280_912;

/// What the resolver computed from one reading of the clock.
#[derive(Clone, Copy, Debug, PartialEq, Eq, Structural)]
pub struct Plan {
    /// The clock reading every other field is anchored to, in Unix milliseconds.
    pub origin_ms: i64,
    /// The instant delivery is due, in Unix milliseconds.
    pub target_ms: i128,
    /// How long the delivery worker sleeps before delivering.
    pub wait_ms: u64,
    /// How long the lifecycle guard keeps the process alive.
    pub guard_ms: u64,
}

#[derive(Clone, Copy, Debug, PartialEq, Eq, Structural)]
pub enum ScheduleError {
    /// The duration is too long for its span in milliseconds to be represented.
    TooLong,
    /// The system clock could not be read as a time after 1970 that chrono
    /// can represent.
    ClockUnreadable,
}

/// The wait for a duration: its span, or zero when the duration is not positive.
pub open spec fn wait_of(minutes: int) -> int {
    if minutes <= 0 {
        0
    } else {
        minutes * MILLIS_PER_MINUTE
    }
}

/// The plan for a duration of `minutes` resolved at clock reading `origin_ms`.
pub open spec fn planned(origin_ms: i64, minutes: i64) -> Plan {
    Plan {
        origin_ms,
        target_ms: (origin_ms + minutes * MILLIS_PER_MINUTE) as i128,
        wait_ms: wait_of(minutes as int) as u64,
        guard_ms: (wait_of(minutes as int) + SAFETY_MARGIN_MS) as u64,
    }
}

/// Resolves a duration against a clock reading. Every duration of at most
/// `MAX_MINUTES` resolves; one that is zero or negative fires at once.
pub fn resolve(origin_ms: i64, minutes: i64) -> (r: Result<Plan, ScheduleError>)
    ensures
        minutes <= MAX_MINUTES ==> r == Ok::<Plan, ScheduleError>(planned(origin_ms, minutes)),
        minutes > MAX_MINUTES ==> r == Err::<Plan, ScheduleError>(ScheduleError::TooLong),
{
    if minutes > MAX_MINUTES {
        return Err(ScheduleError::TooLong);
    }
    proof {
        assert(-0x8000_0000_0000_0000 * 60_000 <= minutes * 60_000 <= MAX_MINUTES * 60_000)
            by (nonlinear_arith)
            requires
                -0x8000_0000_0000_0000 <= minutes <= MAX_MINUTES,
        ;
    }
    let span: i128 = (minutes as i128) * (MILLIS_PER_MINUTE as i128);
    let target_ms: i128 = (origin_ms as i128) + span;
    let wait_ms: u64 = if minutes <= 0 {
        0
    } else {
        span as u64
    };
    Ok(Plan { origin_ms, target_ms, wait_ms, guard_ms: wait_ms + SAFETY_MARGIN_MS })
}

/// Relies on `SystemTime::now` and `SystemTime::duration_since(UNIX_EPOCH)`
/// for the reading, then chrono's `DateTime::from_timestamp` and
/// `DateTime::timestamp_millis`: the current time in Unix milliseconds, or
/// `None` where the clock reads before 1970 or beyond chrono's range. Nothing
/// is known of the value read.
#[verifier::external_body]
fn now_millis() -> (r: Option<i64>) {
    match std::time::SystemTime::now().duration_since(std::time::UNIX_EPOCH) {
        Ok(d) => i64::try_from(d.as_secs())
            .ok()
            .and_then(|secs| chrono::DateTime::from_timestamp(secs, d.subsec_nanos()))
            .map(|t| t.timestamp_millis()),
        Err(_) => None,
    }
}

/// Reads the clock once and resolves `minutes` against that reading, so that
/// the worker's and the guard's waits share one origin. A duration that is
/// too long is refused before the clock is read.
pub fn plan_from_now(minutes: i64) -> (r: Result<Plan, ScheduleError>)
    ensures
        minutes <= MAX_MINUTES ==> ((r matches Ok(p) && p == planned(p.origin_ms, minutes)) || r
            == Err::<Plan, ScheduleError>(ScheduleError::ClockUnreadable)),
        minutes > MAX_MINUTES ==> r == Err::<Plan, ScheduleError>(ScheduleError::TooLong),
{
    if minutes > MAX_MINUTES {
        return Err(ScheduleError::TooLong);
    }
    match now_millis() {
        Some(now) => resolve(now, minutes),
        None => Err(ScheduleError::ClockUnreadable),
    }
}

/// For a duration that is not negative, the target lies exactly that many
/// minutes after the clock reading, and the wait is the distance to it.
pub proof fn lemma_target_is_origin_plus_duration(origin_ms: i64, minutes: i64)
    requires
        0 <= minutes <= MAX_MINUTES,
    ensures
        planned(origin_ms, minutes).target_ms == origin_ms + minutes * 60_000,
        planned(origin_ms, minutes).wait_ms == planned(origin_ms, minutes).target_ms - origin_ms,
{
    assert(0 <= minutes * 60_000 <= MAX_MINUTES * 60_000) by (nonlinear_arith)
        requires
            0 <= minutes <= MAX_MINUTES,
    ;
}

/// A duration of zero or less is clamped to a wait of zero.
pub proof fn lemma_non_positive_fires_at_once(origin_ms: i64, minutes: i64)
    requires
        minutes <= 0,
    ensures
        planned(origin_ms, minutes).wait_ms == 0,
        planned(origin_ms, minutes).guard_ms == SAFETY_MARGIN_MS,
{
}

/// The guard waits exactly the safety margin beyond the delivery wait, and so
/// outlasts the worker's sleep, notification and audio hold whenever the
/// notification takes less than the margin minus the audio hold.
pub proof fn lemma_guard_outlasts_worker(origin_ms: i64, minutes: i64, notify_ms: nat)
    requires
        minutes <= MAX_MINUTES,
        notify_ms < SAFETY_MARGIN_MS - AUDIO_HOLD_MS,
    ensures
        planned(origin_ms, minutes).guard_ms == planned(origin_ms, minutes).wait_ms
            + SAFETY_MARGIN_MS,
        planned(origin_ms, minutes).guard_ms > planned(origin_ms, minutes).wait_ms + notify_ms
            + AUDIO_HOLD_MS,
{
    assert(minutes * 60_000 <= MAX_MINUTES * 60_000) by (nonlinear_arith)
        requires
            minutes <= MAX_MINUTES,
    ;
}

} // verus!
