//! A single-session pomodoro timer: the persisted session record, its text
//! document, and the decisions taken by the start, stop and status commands.

pub mod clock;
pub mod laws;
pub mod record;
pub mod session;

pub use clock::{minutes_between, minutes_left, Moment};
pub use record::{Pom, PomError, PomView};
pub use session::{get_duration, StartOutcome, Status, StopOutcome};
