use pomodoro::application::{LoopControl, PomodoroApplication};
use pomodoro::config::{PomodoroArgs, PomodoroConfig};
use pomodoro::events::{event_for_key, event_for_signal, KeyPress, PomodoroEvent, SignalKind};
use pomodoro::session::SessionKind;

fn tiny_config() -> PomodoroConfig {
    PomodoroConfig::from_args(PomodoroArgs {
        tick_interval_ms: Some(1),
        work_duration_ms: Some(2),
        break_duration_ms: Some(1),
        long_break_duration_ms: Some(3),
        ..Default::default()
    })
}

#[test]
fn three_ticks_drive_work_into_break() {
    let mut app = PomodoroApplication::new(tiny_config());
    assert_eq!(app.current_session.kind, SessionKind::Work);

    let first = app.handle_event(PomodoroEvent::Tick);
    assert!(matches!(first.control, LoopControl::Continue));
    assert!(first.notifications.is_none());
    assert!(first.render);
    assert_eq!(app.current_session.elapsed_ms, 1);

    let second = app.handle_event(PomodoroEvent::Tick);
    assert!(second.notifications.is_none());
    assert_eq!(app.current_session.elapsed_ms, 2);
    assert_eq!(app.current_session.index, 1);

    let third = app.handle_event(PomodoroEvent::Tick);
    let transition = third.notifications.expect("the third tick must start the break");
    assert_eq!(transition.ended.title, "Working time");
    assert_eq!(transition.started.title, "Break time");
    assert_eq!(app.current_session.index, 2);
    assert_eq!(app.current_session.kind, SessionKind::Break);
    assert_eq!(app.current_session.elapsed_ms, 0);
}

#[test]
fn overrun_is_not_carried_forward() {
    let mut app = PomodoroApplication::new(tiny_config());
    app.current_session.tick(10);
    let notifications = app.go_to_next_session();
    assert_eq!(app.current_session.index, 2);
    assert_eq!(app.current_session.elapsed_ms, 0);
    assert_eq!(notifications.ended.title, "Working time");
    assert_eq!(notifications.started.title, "Break time");
}

#[test]
fn paused_ticks_change_nothing() {
    let mut app = PomodoroApplication::new(tiny_config());
    let toggled = app.handle_event(PomodoroEvent::TogglePause);
    assert!(toggled.render);
    assert!(app.paused);
    for _ in 0..100 {
        let outcome = app.handle_event(PomodoroEvent::Tick);
        assert!(outcome.notifications.is_none());
        assert_eq!(app.current_session.elapsed_ms, 0);
        assert_eq!(app.current_session.remaining_time(), 2);
        assert_eq!(app.current_session.index, 1);
    }
}

#[test]
fn toggling_twice_restores_the_pause_state() {
    let mut app = PomodoroApplication::new(tiny_config());
    app.handle_event(PomodoroEvent::Tick);
    let elapsed_before = app.current_session.elapsed_ms;
    app.handle_event(PomodoroEvent::TogglePause);
    assert!(app.paused);
    assert_eq!(app.current_session.elapsed_ms, elapsed_before);
    app.handle_event(PomodoroEvent::TogglePause);
    assert!(!app.paused);
    assert_eq!(app.current_session.elapsed_ms, elapsed_before);
}

#[test]
fn quit_stops_the_loop_without_a_render() {
    let mut app = PomodoroApplication::new(tiny_config());
    let outcome = app.handle_event(PomodoroEvent::Quit);
    assert!(matches!(outcome.control, LoopControl::Quit));
    assert!(!outcome.render);
    assert!(outcome.notifications.is_none());
}

#[test]
fn a_read_error_is_fatal_and_keeps_its_diagnostic() {
    let mut app = PomodoroApplication::new(tiny_config());
    let outcome = app.handle_event(PomodoroEvent::Error("input source failed".to_string()));
    match outcome.control {
        LoopControl::Fatal(message) => assert_eq!(message, "input source failed"),
        _ => panic!("a read error must stop the loop"),
    }
    assert!(!outcome.render);
}

#[test]
fn signals_map_to_quit_and_toggle() {
    assert!(matches!(event_for_signal(SignalKind::Interrupt), PomodoroEvent::Quit));
    assert!(matches!(event_for_signal(SignalKind::Quit), PomodoroEvent::Quit));
    assert!(matches!(event_for_signal(SignalKind::Terminate), PomodoroEvent::Quit));
    assert!(matches!(event_for_signal(SignalKind::UserDefined), PomodoroEvent::TogglePause));
}

#[test]
fn keys_map_to_pause_quit_or_nothing() {
    let plain = |character| KeyPress { character, control: false, other_modifiers: false };
    let control = |character| KeyPress { character, control: true, other_modifiers: false };
    assert!(matches!(event_for_key(plain('p')), Some(PomodoroEvent::TogglePause)));
    assert!(matches!(event_for_key(plain('q')), Some(PomodoroEvent::Quit)));
    assert!(matches!(event_for_key(control('c')), Some(PomodoroEvent::Quit)));
    assert!(event_for_key(plain('x')).is_none());
    assert!(event_for_key(control('p')).is_none());
    assert!(event_for_key(control('q')).is_none());
    assert!(event_for_key(KeyPress { character: 'p', control: false, other_modifiers: true })
        .is_none());
}

#[test]
fn a_long_session_counts_a_full_cycle() {
    let mut app = PomodoroApplication::new(tiny_config());
    let mut titles = Vec::new();
    for _ in 0..12 {
        if let Some(transition) = app.handle_event(PomodoroEvent::Tick).notifications {
            titles.push(transition.ended.title.clone());
            titles.push(transition.started.title.clone());
        }
    }
    // work lasts 2 ticks and overruns one more, a break 1 tick and overruns
    // one more: the first transition comes after 3 ticks, then every other
    // transition alternates 2 and 3 ticks later; each transition announces
    // the ended session first, then the started one.
    assert_eq!(
        titles,
        [
            "Working time",
            "Break time",
            "Break time",
            "Working time",
            "Working time",
            "Break time",
            "Break time",
            "Working time",
        ]
    );
    assert_eq!(app.current_session.index, 5);
}
