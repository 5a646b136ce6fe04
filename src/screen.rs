//! Which screen is shown, and what switching between them does.

use vstd::prelude::*;

use crate::clock_text::clock_text;
use crate::settings::{edited, Setting, WorkTimeSettings};
use crate::timer::{TimerData, WorkTimes};

verus! {

/// The screen on display.
#[derive(PartialEq, Eq, Clone, Debug)]
pub enum Screen {
    TimerScreen,
    /// The settings screen, with the texts being edited for the lengths of
    /// work, of the long break and of the short break, in that order.
    SettingsScreen { editable_settings: Vec<String> },
}

/// The lengths after the texts of the settings screen were applied in turn:
/// the first to work, the second to the long break, the third to the short
/// break. Texts beyond the third, and missing ones, change nothing.
pub open spec fn edits_applied(s: WorkTimeSettings, texts: Seq<String>) -> WorkTimeSettings {
    let s0 = if texts.len() > 0 {
        edited(s, WorkTimes::Work, texts[0]@)
    } else {
        s
    };
    let s1 = if texts.len() > 1 {
        edited(s0, WorkTimes::Long, texts[1]@)
    } else {
        s0
    };
    if texts.len() > 2 {
        edited(s1, WorkTimes::Short, texts[2]@)
    } else {
        s1
    }
}

impl Screen {
    /// The settings button. From the timer screen it opens the settings
    /// screen with the current lengths as text. From the settings screen it
    /// applies the edited texts that denote a duration and returns to the
    /// timer screen.
    pub fn toggle_settings(&mut self, settings: &mut Setting)
        ensures
            final(settings).spec_alert_sound() == old(settings).spec_alert_sound(),
            match *old(self) {
                Screen::TimerScreen => {
                    &&& *final(settings) == *old(settings)
                    &&& (*final(self)) is SettingsScreen
                    &&& (*final(self))->editable_settings@.len() == 3
                    &&& (*final(self))->editable_settings@[0]@ == clock_text(
                        old(settings).spec_work_times().work as nat,
                    )
                    &&& (*final(self))->editable_settings@[1]@ == clock_text(
                        old(settings).spec_work_times().long as nat,
                    )
                    &&& (*final(self))->editable_settings@[2]@ == clock_text(
                        old(settings).spec_work_times().short as nat,
                    )
                },
                Screen::SettingsScreen { editable_settings } => {
                    &&& *final(self) == Screen::TimerScreen
                    &&& final(settings).spec_work_times() == edits_applied(
                        old(settings).spec_work_times(),
                        editable_settings@,
                    )
                },
            },
    {
        let next = match &*self {
            Screen::TimerScreen => Screen::SettingsScreen {
                editable_settings: TimerData::load_editable_settings(settings),
            },
            Screen::SettingsScreen { editable_settings } => {
                if editable_settings.len() > 0 {
                    settings.validate_work_time_setting(&editable_settings[0], &WorkTimes::Work);
                }
                if editable_settings.len() > 1 {
                    settings.validate_work_time_setting(&editable_settings[1], &WorkTimes::Long);
                }
                if editable_settings.len() > 2 {
                    settings.validate_work_time_setting(&editable_settings[2], &WorkTimes::Short);
                }
                Screen::TimerScreen
            },
        };
        *self = next;
    }
}

} // verus!
