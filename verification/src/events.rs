//! Events and how raw inputs map onto them.
//!
//! The timer is driven by one ordered stream of events merged from three
//! sources: a periodic tick, raw keyboard input and OS signals. Merging the
//! sources is the embedding binary's side; the mapping from what a source
//! yields to the event it means is decided here.

use vstd::prelude::*;

verus! {

/// One event of the merged stream. Only `Error` carries a payload: the
/// diagnostic of a failed read on the input source.
#[derive(Debug)]
pub enum PomodoroEvent {
    Error(String),
    Tick,
    TogglePause,
    Quit,
}

/// The OS signals the timer listens for, by their meaning: the interrupt,
/// quit and terminate signals, and the first user-defined signal.
#[derive(Clone, Copy, Debug, PartialEq, Eq, Structural)]
pub enum SignalKind {
    Interrupt,
    Quit,
    Terminate,
    UserDefined,
}

/// The event an OS signal stands for: interrupt, quit and terminate all ask
/// the timer to quit; the user-defined signal toggles the pause, so that
/// another process can pause the timer without terminal focus.
pub open spec fn spec_event_for_signal(signal: SignalKind) -> PomodoroEvent {
    match signal {
        SignalKind::Interrupt => PomodoroEvent::Quit,
        SignalKind::Quit => PomodoroEvent::Quit,
        SignalKind::Terminate => PomodoroEvent::Quit,
        SignalKind::UserDefined => PomodoroEvent::TogglePause,
    }
}

/// The event an OS signal stands for.
pub fn event_for_signal(signal: SignalKind) -> (event: PomodoroEvent)
    ensures
        event == spec_event_for_signal(signal),
{
    match signal {
        SignalKind::Interrupt => PomodoroEvent::Quit,
        SignalKind::Quit => PomodoroEvent::Quit,
        SignalKind::Terminate => PomodoroEvent::Quit,
        SignalKind::UserDefined => PomodoroEvent::TogglePause,
    }
}

/// One key press from the raw terminal: the character, whether control was
/// held, and whether any other modifier was held.
#[derive(Clone, Copy, Debug, PartialEq, Eq, Structural)]
pub struct KeyPress {
    pub character: char,
    pub control: bool,
    pub other_modifiers: bool,
}

/// The event a key press stands for: a plain `p` toggles the pause, a plain
/// `q` or the interrupt chord control-`c` quits, and every other key is
/// dropped, not forwarded.
pub open spec fn spec_event_for_key(key: KeyPress) -> Option<PomodoroEvent> {
    if key.other_modifiers {
        None
    } else if key.character == 'p' && !key.control {
        Some(PomodoroEvent::TogglePause)
    } else if key.character == 'q' && !key.control {
        Some(PomodoroEvent::Quit)
    } else if key.character == 'c' && key.control {
        Some(PomodoroEvent::Quit)
    } else {
        None
    }
}

/// The event a key press stands for, if any.
pub fn event_for_key(key: KeyPress) -> (event: Option<PomodoroEvent>)
    ensures
        event == spec_event_for_key(key),
{
    if key.other_modifiers {
        None
    } else if key.character == 'p' && !key.control {
        Some(PomodoroEvent::TogglePause)
    } else if key.character == 'q' && !key.control {
        Some(PomodoroEvent::Quit)
    } else if key.character == 'c' && key.control {
        Some(PomodoroEvent::Quit)
    } else {
        None
    }
}

} // verus!
