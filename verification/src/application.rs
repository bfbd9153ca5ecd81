//! The application state machine: one live session, a pause flag and the
//! configuration, advanced by one event at a time.
//!
//! The embedding binary owns the event loop: it merges the event sources,
//! feeds each event to [`PomodoroApplication::handle_event`], and carries
//! out what the returned [`EventOutcome`] asks for — a display refresh, a
//! desktop notification, or stopping the loop and tearing the terminal
//! down.

use vstd::prelude::*;

use crate::config::PomodoroConfig;
use crate::events::PomodoroEvent;
use crate::notify::PomodoroNotificationTemplate;
use crate::session::{kind_for_index, spec_session_for_index, PomodoroSession};

verus! {

/// How the event loop goes on after an event: it keeps running, stops
/// cleanly, or stops with a fatal diagnostic. Either way of stopping must
/// end in full terminal teardown before the process exits.
#[derive(Debug)]
pub enum LoopControl {
    Continue,
    Quit,
    Fatal(String),
}

/// The two notifications one session transition asks for, in dispatch
/// order: first one on the outgoing session that just ended, then one on
/// the successor that starts. The configuration carries exactly one payload
/// per kind, so each notification carries the payload of its own session's
/// kind — the only payload configured for it.
#[derive(Debug)]
pub struct TransitionNotifications {
    pub ended: PomodoroNotificationTemplate,
    pub started: PomodoroNotificationTemplate,
}

/// What one consumed event asks the loop to do: how to go on, which
/// notifications to dispatch, and whether to refresh the display.
#[derive(Debug)]
pub struct EventOutcome {
    pub control: LoopControl,
    pub notifications: Option<TransitionNotifications>,
    pub render: bool,
}

/// The whole state of the timer: the configuration, the pause flag and the
/// one live session. There is no retained history: a finished session is
/// replaced by its successor on the spot.
#[derive(Debug)]
pub struct PomodoroApplication {
    pub config: PomodoroConfig,
    pub paused: bool,
    pub current_session: PomodoroSession,
}

impl PomodoroApplication {
    /// The state is well formed when its live session is: ordinal at least
    /// 1, kind derived from the ordinal, length the configured one.
    pub open spec fn wf(self) -> bool {
        self.current_session.wf(self.config.durations)
    }

    /// The state and outcome one event leads to.
    ///
    /// A tick while paused changes nothing: pausing freezes time. A tick
    /// while running accumulates one tick interval; if that takes the
    /// session past its length, the successor session starts on the spot,
    /// and the outcome hands out two notifications in order: one on the
    /// session that ended, then one on the session that starts, each with
    /// its kind's configured payload. Toggling the pause flips the flag and
    /// nothing else, and asks for an immediate refresh. Quit and a read
    /// error stop the loop, without a further refresh; the error hands its
    /// diagnostic on.
    pub open spec fn spec_step(self, event: PomodoroEvent) -> (PomodoroApplication, EventOutcome) {
        match event {
            PomodoroEvent::Error(message) => (
                self,
                EventOutcome {
                    control: LoopControl::Fatal(message),
                    notifications: None,
                    render: false,
                },
            ),
            PomodoroEvent::Quit => (
                self,
                EventOutcome { control: LoopControl::Quit, notifications: None, render: false },
            ),
            PomodoroEvent::TogglePause => (
                PomodoroApplication { paused: !self.paused, ..self },
                EventOutcome { control: LoopControl::Continue, notifications: None, render: true },
            ),
            PomodoroEvent::Tick => {
                if self.paused {
                    (
                        self,
                        EventOutcome {
                            control: LoopControl::Continue,
                            notifications: None,
                            render: true,
                        },
                    )
                } else {
                    let ticked = self.current_session.spec_ticked(self.config.tick_interval_ms);
                    if ticked.spec_is_finished() {
                        let next = spec_session_for_index(
                            (ticked.index + 1) as usize,
                            self.config.durations,
                        );
                        (
                            PomodoroApplication { current_session: next, ..self },
                            EventOutcome {
                                control: LoopControl::Continue,
                                notifications: Some(TransitionNotifications {
                                    ended: self.config.notifier.spec_notification_for(
                                        self.current_session.kind,
                                    ),
                                    started: self.config.notifier.spec_notification_for(next.kind),
                                }),
                                render: true,
                            },
                        )
                    } else {
                        (
                            PomodoroApplication { current_session: ticked, ..self },
                            EventOutcome {
                                control: LoopControl::Continue,
                                notifications: None,
                                render: true,
                            },
                        )
                    }
                }
            },
        }
    }

    /// A fresh timer under the given configuration: running (not paused),
    /// at the first session of the cycle.
    pub fn new(config: PomodoroConfig) -> (app: Self)
        ensures
            app.config == config,
            !app.paused,
            app.current_session == spec_session_for_index(1, config.durations),
            app.wf(),
    {
        let initial_session = PomodoroSession::for_index(1, &config);
        PomodoroApplication { config, paused: false, current_session: initial_session }
    }

    /// Flips the pause flag; the session and the configuration stay as they
    /// are.
    pub fn toggle_pause(&mut self)
        ensures
            *final(self) == (PomodoroApplication { paused: !old(self).paused, ..*old(self) }),
    {
        self.paused = !self.paused;
    }

    /// The payload announcing the start of the current session, for the
    /// caller to dispatch — the timer sends one at startup and one on
    /// every session change.
    pub fn session_start_notification(&self) -> (template: &PomodoroNotificationTemplate)
        ensures
            *template == self.config.notifier.spec_notification_for(self.current_session.kind),
    {
        self.config.notifier.notify_session_start(&self.current_session)
    }

    /// Replaces the current session by its successor: ordinal one higher,
    /// kind re-derived, length looked up, no time accumulated — however far
    /// the predecessor overran, nothing is carried forward. Returns both
    /// notifications of the transition, in dispatch order: one on the
    /// outgoing session that ended, then one on the successor that starts,
    /// each with its kind's configured payload.
    pub fn go_to_next_session(&mut self) -> (notifications: TransitionNotifications)
        requires
            old(self).current_session.index < usize::MAX,
        ensures
            *final(self) == (PomodoroApplication {
                current_session: spec_session_for_index(
                    (old(self).current_session.index + 1) as usize,
                    old(self).config.durations,
                ),
                ..*old(self)
            }),
            final(self).current_session.elapsed_ms == 0,
            final(self).current_session.index == old(self).current_session.index + 1,
            notifications.ended == old(self).config.notifier.spec_notification_for(
                old(self).current_session.kind,
            ),
            notifications.started == old(self).config.notifier.spec_notification_for(
                final(self).current_session.kind,
            ),
            final(self).wf(),
    {
        let ended = self.config.notifier.notification_for(self.current_session.kind).duplicate();
        let next_index = self.current_session.index + 1;
        self.current_session = PomodoroSession::for_index(next_index, &self.config);
        let started = self.config.notifier.notify_session_start(&self.current_session).duplicate();
        TransitionNotifications { ended, started }
    }

    /// One tick of the timer: while paused, nothing moves; while running,
    /// one tick interval accumulates on the session, and a session driven
    /// past its length is replaced by its successor on the spot, handing
    /// back the transition's two notifications for the caller to dispatch.
    pub fn tick(&mut self) -> (notifications: Option<TransitionNotifications>)
        requires
            !old(self).paused ==> old(self).current_session.elapsed_ms
                + old(self).config.tick_interval_ms <= u64::MAX && old(
                self,
            ).current_session.index < usize::MAX,
        ensures
            *final(self) == old(self).spec_step(PomodoroEvent::Tick).0,
            notifications == old(self).spec_step(PomodoroEvent::Tick).1.notifications,
    {
        if self.paused {
            return None;
        }
        let interval = self.config.tick_interval_ms;
        self.current_session.tick(interval);
        if self.current_session.is_finished() {
            Some(self.go_to_next_session())
        } else {
            None
        }
    }

    /// Consumes one event of the merged stream and says what the loop is to
    /// do next. The whole dispatch is [`Self::spec_step`]; this is its
    /// executable side.
    pub fn handle_event(&mut self, event: PomodoroEvent) -> (outcome: EventOutcome)
        requires
            event is Tick && !old(self).paused ==> old(self).current_session.elapsed_ms + old(
                self,
            ).config.tick_interval_ms <= u64::MAX && old(self).current_session.index
                < usize::MAX,
        ensures
            (*final(self), outcome) == old(self).spec_step(event),
    {
        match event {
            PomodoroEvent::Error(message) => EventOutcome {
                control: LoopControl::Fatal(message),
                notifications: None,
                render: false,
            },
            PomodoroEvent::Quit => EventOutcome {
                control: LoopControl::Quit,
                notifications: None,
                render: false,
            },
            PomodoroEvent::TogglePause => {
                self.toggle_pause();
                EventOutcome { control: LoopControl::Continue, notifications: None, render: true }
            },
            PomodoroEvent::Tick => {
                let notifications = self.tick();
                EventOutcome { control: LoopControl::Continue, notifications, render: true }
            },
        }
    }

    /// The state after `count` ticks, one [`Self::spec_step`] at a time.
    pub open spec fn spec_after_ticks(self, count: nat) -> PomodoroApplication
        decreases count,
    {
        if count == 0 {
            self
        } else {
            self.spec_after_ticks((count - 1) as nat).spec_step(PomodoroEvent::Tick).0
        }
    }
}

/// While paused, ticks change nothing: however many tick events arrive, the
/// state — and with it the session's accumulated and remaining time — stays
/// exactly as it was.
pub proof fn lemma_paused_ticks_stable(app: PomodoroApplication, count: nat)
    requires
        app.paused,
    ensures
        app.spec_after_ticks(count) == app,
    decreases count,
{
    if count > 0 {
        lemma_paused_ticks_stable(app, (count - 1) as nat);
    }
}

/// Toggling the pause twice returns to the original pause state, and a
/// toggle never touches the session: its accumulated time is exactly as it
/// was.
pub proof fn lemma_toggle_pause_involutive(app: PomodoroApplication)
    ensures
        app.spec_step(PomodoroEvent::TogglePause).0.spec_step(PomodoroEvent::TogglePause).0 == app,
        app.spec_step(PomodoroEvent::TogglePause).0.current_session == app.current_session,
{
}

} // verus!
