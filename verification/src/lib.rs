//! A reminder timer whose waits lengthen quadratically: the schedule, the
//! persisted state and its text form, the messages, and the state machine
//! that a daemon drives with clock readings and signals.

pub mod clock;
pub mod launch;
pub mod notice;
pub mod schedule;
pub mod store;
pub mod text;
pub mod timer;
