//! Notification payloads: which icon, title and body announce the start of a
//! session of each kind.
//!
//! The library only selects and hands out the payload; delivering it to the
//! OS notification service is the embedding binary's side of the bargain.

use vstd::prelude::*;

use crate::session::{PomodoroSession, SessionKind};

verus! {

/// The text of one desktop notification: an icon name, a title and a body.
#[derive(Debug)]
pub struct PomodoroNotificationTemplate {
    pub icon: String,
    pub title: String,
    pub body: String,
}

impl PomodoroNotificationTemplate {
    /// An identical copy of this payload.
    pub fn duplicate(&self) -> (copy: Self)
        ensures
            copy == *self,
    {
        let copy = PomodoroNotificationTemplate {
            icon: self.icon.clone(),
            title: self.title.clone(),
            body: self.body.clone(),
        };
        copy
    }
}

/// One notification payload per session kind.
#[derive(Debug)]
pub struct PomodoroNotifier {
    pub work_session_notification: PomodoroNotificationTemplate,
    pub break_session_notification: PomodoroNotificationTemplate,
    pub long_break_session_notification: PomodoroNotificationTemplate,
}

impl PomodoroNotifier {
    /// The payload that announces the start of a session of the given kind.
    pub open spec fn spec_notification_for(self, kind: SessionKind) -> PomodoroNotificationTemplate {
        match kind {
            SessionKind::Work => self.work_session_notification,
            SessionKind::Break => self.break_session_notification,
            SessionKind::LongBreak => self.long_break_session_notification,
        }
    }

    /// The payload configured for sessions of the given kind.
    pub fn notification_for(&self, kind: SessionKind) -> (template: &PomodoroNotificationTemplate)
        ensures
            *template == self.spec_notification_for(kind),
    {
        match kind {
            SessionKind::Work => &self.work_session_notification,
            SessionKind::Break => &self.break_session_notification,
            SessionKind::LongBreak => &self.long_break_session_notification,
        }
    }

    /// The payload announcing the start of the given session, chosen by the
    /// session's kind. The caller dispatches it to the notification service.
    pub fn notify_session_start(&self, session: &PomodoroSession) -> (template: &PomodoroNotificationTemplate)
        ensures
            *template == self.spec_notification_for(session.kind),
    {
        self.notification_for(session.kind)
    }
}

} // verus!
