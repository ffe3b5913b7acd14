//! The delivery worker's decisions: sleep for the wait, show the notification,
//! then play the audio whatever became of the notification, then finish.
//! The caller performs each action and reports back what happened.
use vstd::prelude::*;
use crate::config::Config;
use crate::schedule::AUDIO_HOLD_MS;

verus! {

/// Title of the notification.
pub const NOTIFICATION_SUMMARY: &'static str = "Reminder:";

/// Icon of the notification.
pub const NOTIFICATION_ICON: &'static str = "dialog-information";

/// How long the notification stays visible, in milliseconds.
pub const NOTIFICATION_TIMEOUT_MS: u32 = 10_000;

#[derive(Clone, Copy, Debug, PartialEq, Eq, Structural)]
pub enum Phase {
    /// Not started yet.
    Idle,
    /// Sleeping until the target time.
    Waiting,
    /// The notification has been requested.
    Notifying,
    /// The audio has been requested.
    Playing,
    /// Delivery is over.
    Finished,
}

/// What the caller reports back to the worker.
#[derive(Clone, Copy, Debug, PartialEq, Eq, Structural)]
pub enum Event {
    Start,
    WaitElapsed,
    NotificationShown,
    NotificationFailed,
    PlaybackFinished,
    PlaybackFailed,
}

/// What the worker asks the caller to do next.
#[derive(Clone, Debug, PartialEq, Eq)]
pub enum Action {
    /// Sleep for this many milliseconds, then report `WaitElapsed`.
    Sleep { millis: u64 },
    /// Show a notification with this body, then report whether it was shown.
    ShowNotification { body: String },
    /// Play this audio file, holding the device for the time `hold_for` gives
    /// (at least `hold_ms`), then report the outcome.
    PlayAudio { sound: String, hold_ms: u64 },
    /// Delivery is over; the flags tell which stages succeeded.
    Finish { notified: bool, played: bool },
    /// The event does not belong to the current phase; nothing changes.
    Nothing,
}

/// An action with its strings as sequences.
pub enum ActionView {
    Sleep(u64),
    ShowNotification(Seq<char>),
    PlayAudio(Seq<char>, u64),
    Finish(bool, bool),
    Nothing,
}

impl View for Action {
    type V = ActionView;

    open spec fn view(&self) -> ActionView {
        match self {
            Action::Sleep { millis } => ActionView::Sleep(*millis),
            Action::ShowNotification { body } => ActionView::ShowNotification(body@),
            Action::PlayAudio { sound, hold_ms } => ActionView::PlayAudio(sound@, *hold_ms),
            Action::Finish { notified, played } => ActionView::Finish(*notified, *played),
            Action::Nothing => ActionView::Nothing,
        }
    }
}

/// One delivery: what it needs, and how far it has gone.
pub struct Delivery {
    wait_ms: u64,
    body: String,
    sound: String,
    phase: Phase,
    notified: bool,
}

pub struct DeliveryView {
    pub wait_ms: u64,
    pub body: Seq<char>,
    pub sound: Seq<char>,
    pub phase: Phase,
    pub notified: bool,
}

impl View for Delivery {
    type V = DeliveryView;

    closed spec fn view(&self) -> DeliveryView {
        DeliveryView {
            wait_ms: self.wait_ms,
            body: self.body@,
            sound: self.sound@,
            phase: self.phase,
            notified: self.notified,
        }
    }
}

/// The delivery in phase `phase`, with what else it knows unchanged.
pub open spec fn in_phase(d: DeliveryView, phase: Phase, notified: bool) -> DeliveryView {
    DeliveryView { phase, notified, ..d }
}

/// Only a shown notification marks the delivery as notified.
pub open spec fn wf(d: DeliveryView) -> bool {
    (d.phase == Phase::Idle || d.phase == Phase::Waiting || d.phase == Phase::Notifying) ==> !d.notified
}

/// The worker's transition: the next state and the action to perform.
pub open spec fn next(d: DeliveryView, e: Event) -> (DeliveryView, ActionView) {
    match (d.phase, e) {
        (Phase::Idle, Event::Start) => (in_phase(d, Phase::Waiting, d.notified), ActionView::Sleep(d.wait_ms)),
        (Phase::Waiting, Event::WaitElapsed) => (
            in_phase(d, Phase::Notifying, d.notified),
            ActionView::ShowNotification(d.body),
        ),
        (Phase::Notifying, Event::NotificationShown) => (
            in_phase(d, Phase::Playing, true),
            ActionView::PlayAudio(d.sound, AUDIO_HOLD_MS),
        ),
        (Phase::Notifying, Event::NotificationFailed) => (
            in_phase(d, Phase::Playing, d.notified),
            ActionView::PlayAudio(d.sound, AUDIO_HOLD_MS),
        ),
        (Phase::Playing, Event::PlaybackFinished) => (
            in_phase(d, Phase::Finished, d.notified),
            ActionView::Finish(d.notified, true),
        ),
        (Phase::Playing, Event::PlaybackFailed) => (
            in_phase(d, Phase::Finished, d.notified),
            ActionView::Finish(d.notified, false),
        ),
        _ => (d, ActionView::Nothing),
    }
}

impl Delivery {
    /// A delivery that has not started, taking over the settings.
    pub fn new(wait_ms: u64, config: Config) -> (r: Delivery)
        ensures
            r@.wait_ms == wait_ms,
            r@.body == config.notification_body@,
            r@.sound == config.sound_file@,
            r@.phase == Phase::Idle,
            !r@.notified,
            wf(r@),
    {
        Delivery {
            wait_ms,
            body: config.notification_body,
            sound: config.sound_file,
            phase: Phase::Idle,
            notified: false,
        }
    }

    pub fn phase(&self) -> (r: Phase)
        ensures
            r == self@.phase,
    {
        self.phase
    }

    /// Takes in what happened and returns what to do next.
    pub fn step(&mut self, e: Event) -> (r: Action)
        requires
            wf(old(self)@),
        ensures
            (final(self)@, r@) == next(old(self)@, e),
            wf(final(self)@),
    {
        match (self.phase, e) {
            (Phase::Idle, Event::Start) => {
                self.phase = Phase::Waiting;
                Action::Sleep { millis: self.wait_ms }
            },
            (Phase::Waiting, Event::WaitElapsed) => {
                self.phase = Phase::Notifying;
                Action::ShowNotification { body: self.body.clone() }
            },
            (Phase::Notifying, Event::NotificationShown) => {
                self.phase = Phase::Playing;
                self.notified = true;
                Action::PlayAudio { sound: self.sound.clone(), hold_ms: AUDIO_HOLD_MS }
            },
            (Phase::Notifying, Event::NotificationFailed) => {
                self.phase = Phase::Playing;
                Action::PlayAudio { sound: self.sound.clone(), hold_ms: AUDIO_HOLD_MS }
            },
            (Phase::Playing, Event::PlaybackFinished) => {
                self.phase = Phase::Finished;
                Action::Finish { notified: self.notified, played: true }
            },
            (Phase::Playing, Event::PlaybackFailed) => {
                self.phase = Phase::Finished;
                Action::Finish { notified: self.notified, played: false }
            },
            _ => Action::Nothing,
        }
    }
}

/// Once the wait is over the notification is requested with the configured
/// body, and whatever the notification's outcome, the audio is requested next
/// with the configured sound file.
pub proof fn lemma_notification_then_audio(d: DeliveryView, shown: bool)
    requires
        d.phase == Phase::Waiting,
    ensures
        next(d, Event::WaitElapsed).1 == ActionView::ShowNotification(d.body),
        next(
            next(d, Event::WaitElapsed).0,
            if shown { Event::NotificationShown } else { Event::NotificationFailed },
        ).1 == ActionView::PlayAudio(d.sound, AUDIO_HOLD_MS),
{
}

/// How long playback holds the output device: the clip's length where the
/// decoder reports one, and never less than `min_hold_ms`.
pub fn hold_for(min_hold_ms: u64, clip_ms: Option<u64>) -> (r: u64)
    ensures
        r == match clip_ms {
            Some(c) => if c > min_hold_ms {
                c
            } else {
                min_hold_ms
            },
            None => min_hold_ms,
        },
{
    match clip_ms {
        Some(c) => if c > min_hold_ms {
            c
        } else {
            min_hold_ms
        },
        None => min_hold_ms,
    }
}

/// A whole delivery from the start: sleep for the wait, request the
/// notification with the body, request the audio with the sound file whatever
/// the notification's outcome, and finish reporting both outcomes.
pub proof fn lemma_delivery_run(d: DeliveryView, shown: bool, played: bool)
    requires
        d.phase == Phase::Idle,
        wf(d),
    ensures
        ({
            let (d1, a1) = next(d, Event::Start);
            let (d2, a2) = next(d1, Event::WaitElapsed);
            let (d3, a3) = next(
                d2,
                if shown { Event::NotificationShown } else { Event::NotificationFailed },
            );
            let (d4, a4) = next(
                d3,
                if played { Event::PlaybackFinished } else { Event::PlaybackFailed },
            );
            &&& a1 == ActionView::Sleep(d.wait_ms)
            &&& a2 == ActionView::ShowNotification(d.body)
            &&& a3 == ActionView::PlayAudio(d.sound, AUDIO_HOLD_MS)
            &&& a4 == ActionView::Finish(shown, played)
            &&& d4.phase == Phase::Finished
        }),
{
}

/// A failed notification does not stop the audio.
pub proof fn lemma_failed_notification_still_plays(d: DeliveryView)
    requires
        d.phase == Phase::Notifying,
    ensures
        next(d, Event::NotificationFailed).1 == ActionView::PlayAudio(d.sound, AUDIO_HOLD_MS),
        next(d, Event::NotificationFailed).0.notified == d.notified,
{
}

/// After the notification has been requested, no event requests it again:
/// the worker stays at or past the audio stage.
pub proof fn lemma_notification_requested_once(d: DeliveryView, e: Event)
    requires
        d.phase == Phase::Playing || d.phase == Phase::Finished,
    ensures
        !(next(d, e).1 is ShowNotification),
        next(d, e).0.phase == Phase::Playing || next(d, e).0.phase == Phase::Finished,
{
}

} // verus!
