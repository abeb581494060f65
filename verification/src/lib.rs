//! A periodic-work trigger for callers that poll.
//!
//! `Ticker` measures time on the monotonic clock and runs a callback each
//! time its period has elapsed. `Countdown` is the same rule on plain
//! nanosecond counts, without a clock. `timeline` states what holds of a
//! countdown over a whole sequence of polls.

pub mod clock;
pub mod countdown;
pub mod ticker;
pub mod timeline;

pub use crate::countdown::Countdown;
pub use crate::ticker::Ticker;
