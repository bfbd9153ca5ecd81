//! Configuration: the tick interval, the per-kind session durations, the
//! display templates and the notification texts, each overridable and each
//! with a documented default.

use vstd::prelude::*;

use crate::display::PomodoroDisplayFormatter;
use crate::notify::{PomodoroNotificationTemplate, PomodoroNotifier};
use crate::session::SessionKind;

verus! {

/// Default tick interval: one second.
pub const DEFAULT_TICK_INTERVAL_MS: u64 = 1000;

/// Default work session length: 25 minutes.
pub const DEFAULT_WORK_SESSION_MS: u64 = 25 * 60 * 1000;

/// Default break length: 5 minutes.
pub const DEFAULT_BREAK_SESSION_MS: u64 = 5 * 60 * 1000;

/// Default long break length: 10 minutes.
pub const DEFAULT_LONG_BREAK_SESSION_MS: u64 = 10 * 60 * 1000;

/// The configured length of each kind of session, in milliseconds.
#[derive(Clone, Copy, Debug, PartialEq, Eq, Structural)]
pub struct PomodoroDurations {
    pub work_session_ms: u64,
    pub break_session_ms: u64,
    pub long_break_session_ms: u64,
}

impl PomodoroDurations {
    /// The configured length of a session of the given kind.
    pub open spec fn spec_for_session(self, kind: SessionKind) -> u64 {
        match kind {
            SessionKind::Work => self.work_session_ms,
            SessionKind::Break => self.break_session_ms,
            SessionKind::LongBreak => self.long_break_session_ms,
        }
    }

    /// The configured length of a session of the given kind.
    pub fn for_session(&self, kind: SessionKind) -> (duration_ms: u64)
        ensures
            duration_ms == self.spec_for_session(kind),
    {
        match kind {
            SessionKind::Work => self.work_session_ms,
            SessionKind::Break => self.break_session_ms,
            SessionKind::LongBreak => self.long_break_session_ms,
        }
    }
}

/// The command-line overrides, one optional value per configurable item.
/// Whatever reads the command line hands them over as plain values; `None`
/// means the documented default.
#[derive(Debug, Default)]
pub struct PomodoroArgs {
    pub tick_interval_ms: Option<u64>,
    pub work_duration_ms: Option<u64>,
    pub break_duration_ms: Option<u64>,
    pub long_break_duration_ms: Option<u64>,
    pub work_notification_icon: Option<String>,
    pub work_notification_title: Option<String>,
    pub work_notification_body: Option<String>,
    pub break_notification_icon: Option<String>,
    pub break_notification_title: Option<String>,
    pub break_notification_body: Option<String>,
    pub long_break_notification_icon: Option<String>,
    pub long_break_notification_title: Option<String>,
    pub long_break_notification_body: Option<String>,
    pub active_display: Option<String>,
    pub paused_display: Option<String>,
    pub work_label: Option<String>,
    pub break_label: Option<String>,
    pub long_break_label: Option<String>,
}

/// An override where one was given, the default otherwise.
pub open spec fn or_default(given: Option<u64>, default: u64) -> u64 {
    match given {
        Some(value) => value,
        None => default,
    }
}

/// The view of an overriding text where one was given, of the default
/// otherwise.
pub open spec fn text_or_default(given: Option<String>, default: Seq<char>) -> Seq<char> {
    match given {
        Some(text) => text@,
        None => default,
    }
}

fn take_or_default(given: Option<String>, default: &str) -> (text: String)
    ensures
        text@ == text_or_default(given, default@),
{
    match given {
        Some(text) => text,
        None => default.to_owned(),
    }
}

/// The full configuration of one run.
#[derive(Debug)]
pub struct PomodoroConfig {
    pub tick_interval_ms: u64,
    pub durations: PomodoroDurations,
    pub formatter: PomodoroDisplayFormatter,
    pub notifier: PomodoroNotifier,
}

impl PomodoroConfig {
    /// The configuration the given command-line overrides ask for: each
    /// item the override where one was given, the documented default
    /// otherwise.
    pub fn from_args(args: PomodoroArgs) -> (config: Self)
        ensures
            config.tick_interval_ms == or_default(args.tick_interval_ms, DEFAULT_TICK_INTERVAL_MS),
            config.durations.work_session_ms == or_default(
                args.work_duration_ms,
                DEFAULT_WORK_SESSION_MS,
            ),
            config.durations.break_session_ms == or_default(
                args.break_duration_ms,
                DEFAULT_BREAK_SESSION_MS,
            ),
            config.durations.long_break_session_ms == or_default(
                args.long_break_duration_ms,
                DEFAULT_LONG_BREAK_SESSION_MS,
            ),
            config.notifier.work_session_notification.icon@ == text_or_default(
                args.work_notification_icon,
                "clock"@,
            ),
            config.notifier.work_session_notification.title@ == text_or_default(
                args.work_notification_title,
                "Working time"@,
            ),
            config.notifier.work_session_notification.body@ == text_or_default(
                args.work_notification_body,
                "Well, the moment has passed, back to work!"@,
            ),
            config.notifier.break_session_notification.icon@ == text_or_default(
                args.break_notification_icon,
                "clock"@,
            ),
            config.notifier.break_session_notification.title@ == text_or_default(
                args.break_notification_title,
                "Break time"@,
            ),
            config.notifier.break_session_notification.body@ == text_or_default(
                args.break_notification_body,
                "Drink some water!"@,
            ),
            config.notifier.long_break_session_notification.icon@ == text_or_default(
                args.long_break_notification_icon,
                "clock"@,
            ),
            config.notifier.long_break_session_notification.title@ == text_or_default(
                args.long_break_notification_title,
                "Long break time"@,
            ),
            config.notifier.long_break_session_notification.body@ == text_or_default(
                args.long_break_notification_body,
                "Go for a walk or eat a snack!"@,
            ),
            config.formatter.active_display@ == text_or_default(
                args.active_display,
                "{session_kind}\nSession {session_number}\n{timer}\n"@,
            ),
            config.formatter.paused_display@ == text_or_default(
                args.paused_display,
                "{session_kind}\nSession {session_number}\n{timer}\n(Paused)\n"@,
            ),
            config.formatter.work_session_label@ == text_or_default(args.work_label, "Work"@),
            config.formatter.break_session_label@ == text_or_default(args.break_label, "Break"@),
            config.formatter.long_break_session_label@ == text_or_default(
                args.long_break_label,
                "Long break"@,
            ),
    {
        let tick_interval_ms = match args.tick_interval_ms {
            Some(value) => value,
            None => DEFAULT_TICK_INTERVAL_MS,
        };
        let work_session_ms = match args.work_duration_ms {
            Some(value) => value,
            None => DEFAULT_WORK_SESSION_MS,
        };
        let break_session_ms = match args.break_duration_ms {
            Some(value) => value,
            None => DEFAULT_BREAK_SESSION_MS,
        };
        let long_break_session_ms = match args.long_break_duration_ms {
            Some(value) => value,
            None => DEFAULT_LONG_BREAK_SESSION_MS,
        };
        PomodoroConfig {
            tick_interval_ms,
            durations: PomodoroDurations { work_session_ms, break_session_ms, long_break_session_ms },
            notifier: PomodoroNotifier {
                work_session_notification: PomodoroNotificationTemplate {
                    icon: take_or_default(args.work_notification_icon, "clock"),
                    title: take_or_default(args.work_notification_title, "Working time"),
                    body: take_or_default(
                        args.work_notification_body,
                        "Well, the moment has passed, back to work!",
                    ),
                },
                break_session_notification: PomodoroNotificationTemplate {
                    icon: take_or_default(args.break_notification_icon, "clock"),
                    title: take_or_default(args.break_notification_title, "Break time"),
                    body: take_or_default(args.break_notification_body, "Drink some water!"),
                },
                long_break_session_notification: PomodoroNotificationTemplate {
                    icon: take_or_default(args.long_break_notification_icon, "clock"),
                    title: take_or_default(args.long_break_notification_title, "Long break time"),
                    body: take_or_default(
                        args.long_break_notification_body,
                        "Go for a walk or eat a snack!",
                    ),
                },
            },
            formatter: PomodoroDisplayFormatter {
                active_display: take_or_default(
                    args.active_display,
                    "{session_kind}\nSession {session_number}\n{timer}\n",
                ),
                paused_display: take_or_default(
                    args.paused_display,
                    "{session_kind}\nSession {session_number}\n{timer}\n(Paused)\n",
                ),
                work_session_label: take_or_default(args.work_label, "Work"),
                break_session_label: take_or_default(args.break_label, "Break"),
                long_break_session_label: take_or_default(args.long_break_label, "Long break"),
            },
        }
    }
}

} // verus!
