use take_a_break::config::Config;
use take_a_break::delivery::{hold_for, Action, Delivery, Event, Phase};

fn worker(wait_ms: u64, sound: &str, body: &str) -> Delivery {
    Delivery::new(
        wait_ms,
        Config { sound_file: sound.to_string(), notification_body: body.to_string() },
    )
}

#[test]
fn notification_comes_before_audio() {
    let mut d = worker(60_000, "alert.wav", "Take a break");
    assert_eq!(d.phase(), Phase::Idle);
    assert_eq!(d.step(Event::Start), Action::Sleep { millis: 60_000 });
    assert_eq!(
        d.step(Event::WaitElapsed),
        Action::ShowNotification { body: "Take a break".to_string() }
    );
    assert_eq!(
        d.step(Event::NotificationShown),
        Action::PlayAudio { sound: "alert.wav".to_string(), hold_ms: 1_000 }
    );
    assert_eq!(d.step(Event::PlaybackFinished), Action::Finish { notified: true, played: true });
    assert_eq!(d.phase(), Phase::Finished);
}

#[test]
fn failed_notification_still_plays_audio() {
    let mut d = worker(0, "alert.wav", "Take a break");
    d.step(Event::Start);
    d.step(Event::WaitElapsed);
    assert_eq!(
        d.step(Event::NotificationFailed),
        Action::PlayAudio { sound: "alert.wav".to_string(), hold_ms: 1_000 }
    );
    assert_eq!(d.step(Event::PlaybackFailed), Action::Finish { notified: false, played: false });
}

#[test]
fn notification_is_requested_once() {
    let mut d = worker(0, "a.wav", "b");
    d.step(Event::Start);
    d.step(Event::WaitElapsed);
    d.step(Event::NotificationShown);
    assert_eq!(d.step(Event::WaitElapsed), Action::Nothing);
    assert_eq!(d.step(Event::NotificationShown), Action::Nothing);
    assert_eq!(d.phase(), Phase::Playing);
    d.step(Event::PlaybackFinished);
    assert_eq!(d.step(Event::Start), Action::Nothing);
    assert_eq!(d.step(Event::WaitElapsed), Action::Nothing);
}

#[test]
fn out_of_order_events_change_nothing() {
    let mut d = worker(5, "a.wav", "b");
    assert_eq!(d.step(Event::WaitElapsed), Action::Nothing);
    assert_eq!(d.step(Event::PlaybackFinished), Action::Nothing);
    assert_eq!(d.phase(), Phase::Idle);
    assert_eq!(d.step(Event::Start), Action::Sleep { millis: 5 });
    assert_eq!(d.step(Event::Start), Action::Nothing);
    assert_eq!(d.phase(), Phase::Waiting);
}

#[test]
fn hold_covers_the_clip() {
    assert_eq!(hold_for(1_000, Some(3_500)), 3_500);
    assert_eq!(hold_for(1_000, Some(200)), 1_000);
    assert_eq!(hold_for(1_000, Some(1_000)), 1_000);
    assert_eq!(hold_for(1_000, None), 1_000);
}
