use pomodoro::config::{PomodoroArgs, PomodoroConfig};
use pomodoro::session::{PomodoroSession, SessionKind};

fn config_with(tick_ms: u64, work_ms: u64, break_ms: u64, long_break_ms: u64) -> PomodoroConfig {
    PomodoroConfig::from_args(PomodoroArgs {
        tick_interval_ms: Some(tick_ms),
        work_duration_ms: Some(work_ms),
        break_duration_ms: Some(break_ms),
        long_break_duration_ms: Some(long_break_ms),
        ..Default::default()
    })
}

#[test]
fn kinds_follow_the_cycle() {
    let expected = [
        SessionKind::Work,
        SessionKind::Break,
        SessionKind::Work,
        SessionKind::Break,
        SessionKind::Work,
        SessionKind::Break,
        SessionKind::Work,
        SessionKind::LongBreak,
        SessionKind::Work,
    ];
    for (offset, kind) in expected.iter().enumerate() {
        assert_eq!(SessionKind::for_index(offset + 1), *kind);
    }
}

#[test]
fn kinds_repeat_with_period_eight() {
    for index in 1..64 {
        assert_eq!(SessionKind::for_index(index), SessionKind::for_index(index + 8));
    }
}

#[test]
fn sessions_pick_the_configured_duration() {
    let config = config_with(1000, 1500, 300, 600);
    let work = PomodoroSession::for_index(1, &config);
    assert_eq!(work.kind, SessionKind::Work);
    assert_eq!(work.duration_ms, 1500);
    assert_eq!(work.elapsed_ms, 0);
    let short_break = PomodoroSession::for_index(2, &config);
    assert_eq!(short_break.kind, SessionKind::Break);
    assert_eq!(short_break.duration_ms, 300);
    let long_break = PomodoroSession::for_index(8, &config);
    assert_eq!(long_break.kind, SessionKind::LongBreak);
    assert_eq!(long_break.duration_ms, 600);
}

#[test]
fn tick_is_additive() {
    let config = config_with(1000, 1500, 300, 600);
    let mut twice = PomodoroSession::for_index(1, &config);
    twice.tick(70);
    twice.tick(230);
    let mut once = PomodoroSession::for_index(1, &config);
    once.tick(300);
    assert_eq!(twice, once);
    assert_eq!(twice.elapsed_ms, 300);
}

#[test]
fn finished_only_strictly_past_the_duration() {
    let config = config_with(1, 2, 1, 3);
    let mut session = PomodoroSession::for_index(1, &config);
    assert!(!session.is_finished());
    session.tick(1);
    assert!(!session.is_finished());
    assert_eq!(session.remaining_time(), 1);
    session.tick(1);
    assert!(!session.is_finished());
    assert_eq!(session.remaining_time(), 0);
    session.tick(1);
    assert!(session.is_finished());
}

#[test]
fn remaining_counts_down() {
    let config = config_with(1000, 1500, 300, 600);
    let mut session = PomodoroSession::for_index(1, &config);
    assert_eq!(session.remaining_time(), 1500);
    session.tick(400);
    assert_eq!(session.remaining_time(), 1100);
}
