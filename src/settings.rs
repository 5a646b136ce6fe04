//! The configured length of each interval kind and the alert sound.

use vstd::prelude::*;
use vstd::string::*;

use crate::clock_text::{clock_millis, trim_of};
use crate::timer::{TimerData, WorkTimes};

verus! {

/// The length of each interval kind, in milliseconds.
#[derive(PartialEq, Eq, Structural, Clone, Copy, Debug)]
pub struct WorkTimeSettings {
    pub work: u64,
    pub short: u64,
    pub long: u64,
}

impl WorkTimeSettings {
    /// The length configured for `w`.
    pub open spec fn spec_get(self, w: WorkTimes) -> u64 {
        match w {
            WorkTimes::Work => self.work,
            WorkTimes::Short => self.short,
            WorkTimes::Long => self.long,
        }
    }

    /// These lengths with the one of `w` replaced by `d`.
    pub open spec fn spec_with(self, w: WorkTimes, d: u64) -> WorkTimeSettings {
        match w {
            WorkTimes::Work => WorkTimeSettings { work: d, ..self },
            WorkTimes::Short => WorkTimeSettings { short: d, ..self },
            WorkTimes::Long => WorkTimeSettings { long: d, ..self },
        }
    }

    /// Sets the length of `w` to `d`, leaving the others as they are.
    pub fn set(&mut self, w: &WorkTimes, d: u64)
        ensures
            *final(self) == old(self).spec_with(*w, d),
    {
        match w {
            WorkTimes::Work => self.work = d,
            WorkTimes::Short => self.short = d,
            WorkTimes::Long => self.long = d,
        }
    }
}

/// The lengths that a fresh configuration holds: 25 minutes of work, a
/// 5-minute short break and a 15-minute long break.
pub open spec fn default_work_times() -> WorkTimeSettings {
    WorkTimeSettings { work: 1_500_000, short: 300_000, long: 900_000 }
}

/// The lengths after the text `text` was typed in for `w`: the length it
/// denotes where it denotes one, else the lengths as they were.
pub open spec fn edited(s: WorkTimeSettings, w: WorkTimes, text: Seq<char>) -> WorkTimeSettings {
    match clock_millis(trim_of(text)) {
        Some(d) => s.spec_with(w, d),
        None => s,
    }
}

/// The user's configuration: interval lengths and the sound played when a
/// countdown runs out.
#[derive(PartialEq, Eq, Clone, Debug)]
pub struct Setting {
    work_times_settings: WorkTimeSettings,
    alert_sound_path: String,
}

impl Setting {
    pub closed spec fn spec_work_times(&self) -> WorkTimeSettings {
        self.work_times_settings
    }

    pub closed spec fn spec_alert_sound(&self) -> Seq<char> {
        self.alert_sound_path@
    }

    pub fn new(work_times_settings: WorkTimeSettings, alert_sound_path: String) -> (r: Setting)
        ensures
            r.spec_work_times() == work_times_settings,
            r.spec_alert_sound() == alert_sound_path@,
    {
        Setting { work_times_settings, alert_sound_path }
    }

    pub fn work_time_settings(&self) -> (r: &WorkTimeSettings)
        ensures
            *r == self.spec_work_times(),
    {
        &self.work_times_settings
    }

    pub fn alert_sound_setting(&self) -> (r: &String)
        ensures
            r@ == self.spec_alert_sound(),
    {
        &self.alert_sound_path
    }

    /// Applies a typed length for `work_time`: where `new_val` denotes a
    /// duration it becomes that length, else nothing changes.
    pub fn validate_work_time_setting(&mut self, new_val: &String, work_time: &WorkTimes)
        ensures
            final(self).spec_work_times() == edited(old(self).spec_work_times(), *work_time, new_val@),
            final(self).spec_alert_sound() == old(self).spec_alert_sound(),
    {
        match TimerData::minutes_as_dur(new_val) {
            Some(dur) => self.work_times_settings.set(work_time, dur),
            None => {},
        }
    }
}

impl Default for Setting {
    fn default() -> (r: Setting)
        ensures
            r.spec_work_times() == default_work_times(),
            r.spec_alert_sound() == "assets/alert_sound.wav"@,
    {
        Setting {
            work_times_settings: WorkTimeSettings {
                work: 25 * 60 * 1000,
                short: 5 * 60 * 1000,
                long: 15 * 60 * 1000,
            },
            alert_sound_path: String::from_str("assets/alert_sound.wav"),
        }
    }
}

} // verus!
