//! Everything decided before the worker and the guard start: the settings,
//! the plan, and the worker's initial state. Any failure here happens before
//! anything is scheduled.
use vstd::prelude::*;
use crate::config::{settings_in, Config, ConfigError};
use crate::delivery::{wf, Delivery, Phase};
use crate::schedule::{plan_from_now, planned, Plan, ScheduleError, MAX_MINUTES};

verus! {

#[derive(Clone, Copy, Debug, PartialEq, Eq, Structural)]
pub enum StartupError {
    Config(ConfigError),
    Schedule(ScheduleError),
}

/// A reminder ready to run.
pub struct Reminder {
    pub plan: Plan,
    pub delivery: Delivery,
}

impl Reminder {
    /// The plan resolves `minutes` against its own clock reading, and the worker
    /// has not started, with the plan's wait and the given sound file and body.
    pub open spec fn ready(self, minutes: i64, settings: (Seq<char>, Seq<char>)) -> bool {
        &&& self.plan == planned(self.plan.origin_ms, minutes)
        &&& self.delivery@.wait_ms == self.plan.wait_ms
        &&& self.delivery@.sound == settings.0
        &&& self.delivery@.body == settings.1
        &&& self.delivery@.phase == Phase::Idle
        &&& wf(self.delivery@)
    }

    /// Reads the settings from `config_text`, then resolves `minutes` against
    /// one reading of the clock. Settings are checked first; the only failure
    /// that depends on the clock is `ClockUnreadable`.
    pub fn prepare(minutes: i64, config_text: &str) -> (r: Result<Reminder, StartupError>)
        ensures
            match settings_in(config_text@) {
                Err(e) => r == Err::<Reminder, StartupError>(StartupError::Config(e)),
                Ok(s) => if minutes > MAX_MINUTES {
                    r == Err::<Reminder, StartupError>(StartupError::Schedule(ScheduleError::TooLong))
                } else {
                    (r matches Ok(rem) && rem.ready(minutes, s)) || r == Err::<
                        Reminder,
                        StartupError,
                    >(StartupError::Schedule(ScheduleError::ClockUnreadable))
                },
            },
    {
        let config = match Config::from_toml_str(config_text) {
            Ok(c) => c,
            Err(e) => return Err(StartupError::Config(e)),
        };
        let plan = match plan_from_now(minutes) {
            Ok(p) => p,
            Err(e) => return Err(StartupError::Schedule(e)),
        };
        let delivery = Delivery::new(plan.wait_ms, config);
        Ok(Reminder { plan, delivery })
    }
}

} // verus!
