//! A pomodoro countdown engine: the timer state machine, the configured
//! interval lengths, and the `MM:SS` text codec used to show and edit them.
//!
//! All times are whole milliseconds held in `u64`: a duration is a length of
//! time, a timestamp is a reading of a monotonic clock chosen by the caller.

pub mod clock_text;
pub mod screen;
pub mod settings;
pub mod timer;

pub use screen::Screen;
pub use settings::{Setting, WorkTimeSettings};
pub use timer::{AlertPlayingError, TimerData, TimerState, WorkTimes};
