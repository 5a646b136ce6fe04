use pomodoro_timer::{Setting, TimerData, TimerState, WorkTimeSettings, WorkTimes};

fn lengths(work: u64, short: u64, long: u64) -> Setting {
    Setting::new(WorkTimeSettings { work, short, long }, "alert.wav".to_string())
}

#[test]
fn fresh_session_is_idle_on_work() {
    let t = TimerData::default();
    assert_eq!(*t.timer_state(), TimerState::Done);
    assert_eq!(*t.work_time(), WorkTimes::Work);
    let s = Setting::default();
    assert_eq!(t.remaining_time(&s, 123), 1_500_000);
    assert_eq!(t.calculate_timer_text(&s, 123), "25:00");
}

#[test]
fn start_then_query_shows_full_length() {
    let s = Setting::default();
    let mut t = TimerData::default();
    t.start(10_000);
    assert_eq!(*t.timer_state(), TimerState::Started(10_000));
    assert_eq!(t.remaining_time(&s, 10_000), 1_500_000);
    assert_eq!(t.remaining_time(&s, 10_999), 1_499_001);
    assert_eq!(t.calculate_timer_text(&s, 10_999), "24:59");
}

#[test]
fn start_while_running_changes_nothing() {
    let mut t = TimerData::default();
    t.start(5);
    t.start(90);
    assert_eq!(*t.timer_state(), TimerState::Started(5));
}

#[test]
fn pause_then_resume_keeps_time_left() {
    let s = Setting::default();
    let mut t = TimerData::default();
    t.start(1_000);
    t.pause(61_000);
    assert_eq!(*t.timer_state(), TimerState::Paused(60_000));
    let at_pause = t.remaining_time(&s, 61_000);
    assert_eq!(at_pause, 1_440_000);
    assert_eq!(t.remaining_time(&s, 500_000), at_pause);
    t.resume(500_000);
    assert_eq!(*t.timer_state(), TimerState::Started(440_000));
    assert_eq!(t.remaining_time(&s, 500_000), at_pause);
    assert_eq!(t.remaining_time(&s, 510_000), at_pause - 10_000);
}

#[test]
fn resume_at_the_pause_instant_restores_the_start() {
    let mut t = TimerData::default();
    t.start(7_000);
    t.pause(9_500);
    t.resume(9_500);
    assert_eq!(*t.timer_state(), TimerState::Started(7_000));
}

#[test]
fn toggle_pause_cycles_start_pause_resume() {
    let mut t = TimerData::default();
    t.toggle_pause(100);
    assert_eq!(*t.timer_state(), TimerState::Started(100));
    t.toggle_pause(400);
    assert_eq!(*t.timer_state(), TimerState::Paused(300));
    t.toggle_pause(1_000);
    assert_eq!(*t.timer_state(), TimerState::Started(700));
}

#[test]
fn skip_from_any_state_shows_full_length_of_current_kind() {
    let s = lengths(60_000, 20_000, 40_000);
    let mut t = TimerData::default();
    t.select_work_time(WorkTimes::Long);
    t.start(0);
    t.skip();
    assert_eq!(*t.timer_state(), TimerState::Done);
    assert_eq!(*t.work_time(), WorkTimes::Long);
    assert_eq!(t.remaining_time(&s, 30_000), 40_000);

    t.start(0);
    t.pause(10_000);
    t.skip();
    assert_eq!(*t.timer_state(), TimerState::Done);
    assert_eq!(t.remaining_time(&s, 30_000), 40_000);

    t.skip();
    assert_eq!(*t.timer_state(), TimerState::Done);
    assert_eq!(*t.work_time(), WorkTimes::Long);
}

#[test]
fn expiry_moves_work_to_short_break_and_alerts_once() {
    let s = lengths(60_000, 20_000, 40_000);
    let mut t = TimerData::default();
    t.start(1_000);
    assert!(!t.update(&s, 60_999));
    assert_eq!(*t.timer_state(), TimerState::Started(1_000));
    assert!(t.update(&s, 61_000));
    assert_eq!(*t.timer_state(), TimerState::Done);
    assert_eq!(*t.work_time(), WorkTimes::Short);
    assert!(!t.update(&s, 61_000));
    assert!(!t.update(&s, 10_000_000));
    assert_eq!(*t.work_time(), WorkTimes::Short);
    assert_eq!(t.remaining_time(&s, 10_000_000), 20_000);
}

#[test]
fn expiry_of_a_break_returns_to_work() {
    let s = lengths(60_000, 20_000, 40_000);
    let mut t = TimerData::default();
    t.select_work_time(WorkTimes::Short);
    t.start(0);
    assert!(t.update(&s, 20_000));
    assert_eq!(*t.work_time(), WorkTimes::Work);

    t.select_work_time(WorkTimes::Long);
    t.start(100);
    assert!(t.update(&s, 1_000_000));
    assert_eq!(*t.work_time(), WorkTimes::Work);
}

#[test]
fn paused_or_idle_countdown_never_expires() {
    let s = lengths(60_000, 20_000, 40_000);
    let mut t = TimerData::default();
    assert!(!t.update(&s, u64::MAX));
    t.start(0);
    t.pause(59_000);
    assert!(!t.update(&s, u64::MAX));
    assert_eq!(*t.timer_state(), TimerState::Paused(59_000));
}

#[test]
fn zero_length_interval_expires_at_once() {
    let s = lengths(0, 20_000, 40_000);
    let mut t = TimerData::default();
    t.start(500);
    assert_eq!(t.remaining_time(&s, 500), 0);
    assert!(t.update(&s, 500));
}

#[test]
fn selecting_while_idle_or_paused_discards_progress() {
    let s = lengths(60_000, 20_000, 40_000);
    let mut t = TimerData::default();
    t.start(0);
    t.pause(30_000);
    assert!(t.can_change_work_time());
    t.select_work_time(WorkTimes::Short);
    assert_eq!(*t.timer_state(), TimerState::Done);
    assert_eq!(*t.work_time(), WorkTimes::Short);
    assert_eq!(t.remaining_time(&s, 99_000), 20_000);

    t.select_work_time(WorkTimes::Work);
    assert_eq!(*t.work_time(), WorkTimes::Work);
    assert_eq!(t.remaining_time(&s, 99_000), 60_000);
}

#[test]
fn selecting_while_running_changes_nothing() {
    let mut t = TimerData::default();
    t.start(50);
    assert!(!t.can_change_work_time());
    t.select_work_time(WorkTimes::Long);
    assert_eq!(*t.work_time(), WorkTimes::Work);
    assert_eq!(*t.timer_state(), TimerState::Started(50));
}

#[test]
fn remaining_time_is_clamped_at_zero() {
    let s = lengths(60_000, 20_000, 40_000);
    let mut t = TimerData::default();
    t.start(0);
    assert_eq!(t.remaining_time(&s, 60_000), 0);
    assert_eq!(t.remaining_time(&s, u64::MAX), 0);
    assert_eq!(t.calculate_timer_text(&s, u64::MAX), "00:00");
    *t.timer_state_mut() = TimerState::Paused(90_000);
    assert_eq!(t.remaining_time(&s, 0), 0);
}

#[test]
fn clock_read_before_the_start_counts_no_time() {
    let s = lengths(60_000, 20_000, 40_000);
    let mut t = TimerData::default();
    t.start(50_000);
    assert_eq!(t.remaining_time(&s, 10_000), 60_000);
    t.pause(10_000);
    assert_eq!(*t.timer_state(), TimerState::Paused(0));
}

#[test]
fn mutable_accessors_change_one_field() {
    let mut t = TimerData::default();
    *t.timer_state_mut() = TimerState::Paused(5);
    assert_eq!(*t.work_time(), WorkTimes::Work);
    *t.work_time_mut() = WorkTimes::Long;
    assert_eq!(*t.timer_state(), TimerState::Paused(5));
    assert_eq!(*t.work_time(), WorkTimes::Long);
}

#[test]
fn get_work_time_reads_each_kind() {
    let l = WorkTimeSettings { work: 1, short: 2, long: 3 };
    assert_eq!(TimerData::get_work_time(&WorkTimes::Work, &l), 1);
    assert_eq!(TimerData::get_work_time(&WorkTimes::Short, &l), 2);
    assert_eq!(TimerData::get_work_time(&WorkTimes::Long, &l), 3);
}

#[test]
fn timer_text_follows_the_state() {
    let s = Setting::default();
    let mut t = TimerData::default();
    t.select_work_time(WorkTimes::Short);
    assert_eq!(t.calculate_timer_text(&s, 0), "05:00");
    t.start(0);
    assert_eq!(t.calculate_timer_text(&s, 65_000), "03:55");
    t.pause(65_000);
    assert_eq!(t.calculate_timer_text(&s, 999_999), "03:55");
}
