//! A terminal Pomodoro timer library: a session state machine cycling through
//! work, break and long-break phases, driven by a stream of tick, pause and
//! quit events.
//!
//! The library holds the verified core: session bookkeeping, the kind cycle,
//! the event dispatch state machine, countdown formatting and notification
//! payload selection. The surrounding binary supplies the event sources
//! (a periodic timer, raw keyboard input, OS signals) and performs the
//! terminal and notification I/O.

pub mod application;
pub mod config;
pub mod display;
pub mod events;
pub mod notify;
pub mod session;

pub use application::{EventOutcome, LoopControl, PomodoroApplication};
pub use config::{PomodoroArgs, PomodoroConfig};
pub use events::PomodoroEvent;
pub use session::{PomodoroSession, SessionKind};
