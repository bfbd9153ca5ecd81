//! Sessions: the kind cycle and the bookkeeping of one timed session.

use vstd::prelude::*;

use crate::config::{PomodoroConfig, PomodoroDurations};

verus! {

/// The three phases of the cycle: work sessions alternate with short breaks,
/// and every eighth session is a long break.
#[derive(Clone, Copy, Debug, PartialEq, Eq, Structural)]
pub enum SessionKind {
    Work,
    Break,
    LongBreak,
}

/// The kind of the session with the given 1-based ordinal: every eighth
/// session is a long break, every other even one a short break, and the
/// odd ones are work. Indices 1.. therefore cycle through
/// Work, Break, Work, Break, Work, Break, Work, LongBreak, Work, ...
pub open spec fn kind_for_index(index: nat) -> SessionKind {
    if index % 8 == 0 {
        SessionKind::LongBreak
    } else if index % 2 == 0 {
        SessionKind::Break
    } else {
        SessionKind::Work
    }
}

impl SessionKind {
    /// The kind of the session with the given 1-based ordinal.
    pub fn for_index(index: usize) -> (kind: Self)
        ensures
            kind == kind_for_index(index as nat),
    {
        if index % 8 == 0 {
            Self::LongBreak
        } else if index % 2 == 0 {
            Self::Break
        } else {
            Self::Work
        }
    }
}

/// The session cycle repeats with period 8: the session eight places after
/// any given one has the same kind.
pub proof fn lemma_kind_period_eight(index: nat)
    ensures
        kind_for_index(index + 8) == kind_for_index(index),
{
    assert((index + 8) % 8 == index % 8) by {
        vstd::arithmetic::div_mod::lemma_mod_add_multiples_vanish(index as int, 8);
    };
    assert((index + 8) % 2 == index % 2) by {
        vstd::arithmetic::div_mod::lemma_add_mod_noop(index as int, 8, 2);
    };
}

/// One timed session: its ordinal, its kind, how long it is meant to run
/// and how much time has accumulated so far, all in milliseconds.
///
/// Time only ever accumulates through [`PomodoroSession::tick`]; a session
/// is never rewound, only replaced by its successor.
#[derive(Clone, Copy, Debug, PartialEq, Eq, Structural)]
pub struct PomodoroSession {
    pub index: usize,
    pub kind: SessionKind,
    pub elapsed_ms: u64,
    pub duration_ms: u64,
}

/// The fresh session with the given 1-based ordinal under the given
/// configured durations: kind derived from the ordinal, length looked up by
/// kind, no time accumulated yet.
pub open spec fn spec_session_for_index(index: usize, durations: PomodoroDurations) -> PomodoroSession {
    PomodoroSession {
        index,
        kind: kind_for_index(index as nat),
        elapsed_ms: 0,
        duration_ms: durations.spec_for_session(kind_for_index(index as nat)),
    }
}

impl PomodoroSession {
    /// A session is well formed when its ordinal is at least 1, its kind is
    /// the one its ordinal derives to, and its length is the configured one
    /// for that kind.
    pub open spec fn wf(self, durations: PomodoroDurations) -> bool {
        &&& self.index >= 1
        &&& self.kind == kind_for_index(self.index as nat)
        &&& self.duration_ms == durations.spec_for_session(self.kind)
    }

    /// A fresh session with the given 1-based ordinal: its kind derived from
    /// the ordinal, its length looked up in the configuration, and no time
    /// accumulated yet.
    pub fn for_index(index: usize, config: &PomodoroConfig) -> (session: Self)
        requires
            index >= 1,
        ensures
            session == spec_session_for_index(index, config.durations),
            session.wf(config.durations),
    {
        let kind = SessionKind::for_index(index);
        PomodoroSession {
            index,
            kind,
            duration_ms: config.durations.for_session(kind),
            elapsed_ms: 0,
        }
    }

    /// How much of the session is left. Only meaningful while the session
    /// still runs, that is while no more time has accumulated than the
    /// session is meant to last.
    pub fn remaining_time(&self) -> (remaining_ms: u64)
        requires
            self.elapsed_ms <= self.duration_ms,
        ensures
            remaining_ms == self.duration_ms - self.elapsed_ms,
    {
        self.duration_ms - self.elapsed_ms
    }

    /// A session has finished only strictly after its length is exceeded:
    /// at exactly its length it still runs, so one tick of overrun is
    /// deliberately tolerated.
    pub open spec fn spec_is_finished(self) -> bool {
        self.elapsed_ms > self.duration_ms
    }

    /// Whether the session has finished: true exactly when more time has
    /// accumulated than the session is meant to last. At exactly its length
    /// the session still runs — one tick of overrun is tolerated.
    pub fn is_finished(&self) -> (finished: bool)
        ensures
            finished == self.spec_is_finished(),
    {
        self.elapsed_ms > self.duration_ms
    }

    /// The session after `delta_ms` more milliseconds have accumulated;
    /// nothing else about it changes.
    pub open spec fn spec_ticked(self, delta_ms: u64) -> Self {
        PomodoroSession {
            index: self.index,
            kind: self.kind,
            elapsed_ms: (self.elapsed_ms + delta_ms) as u64,
            duration_ms: self.duration_ms,
        }
    }

    /// Accumulates `delta_ms` more milliseconds on this session.
    pub fn tick(&mut self, delta_ms: u64)
        requires
            old(self).elapsed_ms + delta_ms <= u64::MAX,
        ensures
            *final(self) == old(self).spec_ticked(delta_ms),
    {
        self.elapsed_ms = self.elapsed_ms + delta_ms;
    }
}

/// Ticking is additive: accumulating `first_ms` and then `second_ms` leaves
/// the session exactly as one tick of `first_ms + second_ms` would.
pub proof fn lemma_tick_additive(session: PomodoroSession, first_ms: u64, second_ms: u64)
    requires
        session.elapsed_ms + first_ms + second_ms <= u64::MAX,
    ensures
        session.spec_ticked(first_ms).spec_ticked(second_ms) == session.spec_ticked(
            (first_ms + second_ms) as u64,
        ),
{
}

} // verus!
